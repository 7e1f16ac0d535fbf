use epub_stream_render::line_breaking::optimal_paragraph_breaks;

#[test]
fn picks_least_total_badness() {
    let costs = vec![vec![3, 0, 9], vec![4, 1], vec![0]];
    assert_eq!(optimal_paragraph_breaks(&costs), Some(vec![2, 3]));
}

#[test]
fn ties_prefer_the_shorter_first_line() {
    let costs = vec![vec![1, 1], vec![0]];
    assert_eq!(optimal_paragraph_breaks(&costs), Some(vec![1, 2]));
}

#[test]
fn single_line_when_it_is_cheapest() {
    let costs = vec![vec![50, 10, 0], vec![20, 20], vec![20]];
    assert_eq!(optimal_paragraph_breaks(&costs), Some(vec![3]));
}

#[test]
fn unbreakable_paragraphs_give_none() {
    let first_word_too_wide: Vec<Vec<i64>> = vec![vec![], vec![0]];
    assert_eq!(optimal_paragraph_breaks(&first_word_too_wide), None);
    let last_word_too_wide: Vec<Vec<i64>> = vec![vec![0], vec![]];
    assert_eq!(optimal_paragraph_breaks(&last_word_too_wide), None);
}

#[test]
fn trivial_paragraphs() {
    assert_eq!(optimal_paragraph_breaks(&Vec::new()), Some(vec![]));
    let one: Vec<Vec<i64>> = vec![vec![]];
    assert_eq!(optimal_paragraph_breaks(&one), Some(vec![1]));
}
