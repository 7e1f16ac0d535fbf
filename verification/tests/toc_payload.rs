use epub_stream_render::page_map::{ChapterRef, NavPoint};
use epub_stream_render::preview::build_chapter_title_lookup;
use epub_stream_render::toc::{flatten_toc, resolve_chapter_index, resolve_toc_targets};

fn chapter(index: usize, href: &str) -> ChapterRef {
    ChapterRef {
        index,
        idref: format!("c{}", index),
        href: href.to_string(),
        media_type: "application/xhtml+xml".to_string(),
    }
}

fn nav(label: &str, href: &str, children: Vec<NavPoint>) -> NavPoint {
    NavPoint {
        label: label.to_string(),
        href: href.to_string(),
        children,
    }
}

fn chapters() -> Vec<ChapterRef> {
    vec![
        chapter(0, "Text/cover.xhtml"),
        chapter(1, "Text/ch1.xhtml"),
        chapter(2, "Text/a/notes.xhtml"),
        chapter(3, "Text/b/notes.xhtml"),
        chapter(4, "Text/./ch4.xhtml"),
    ]
}

#[test]
fn flatten_toc_lists_entries_depth_first_with_fragments() {
    let toc = vec![
        nav(
            "Part I",
            "Text/ch1.xhtml",
            vec![nav("Section", "Text/ch1.xhtml#s1", vec![nav("Deep", "x.xhtml#", vec![])])],
        ),
        nav("Notes", "notes.xhtml", vec![]),
    ];
    let flat = flatten_toc(&toc);
    let summary: Vec<(String, usize, Option<String>)> = flat
        .iter()
        .map(|e| (e.label.clone(), e.depth, e.fragment.clone()))
        .collect();
    assert_eq!(
        summary,
        vec![
            ("Part I".to_string(), 0, None),
            ("Section".to_string(), 1, Some("s1".to_string())),
            ("Deep".to_string(), 2, Some(String::new())),
            ("Notes".to_string(), 0, None),
        ]
    );
    assert!(flat.iter().all(|e| e.target_chapter.is_none() && e.target_page_global.is_none()));
    assert!(flatten_toc(&Vec::new()).is_empty());
}

#[test]
fn chapter_index_prefers_session_then_href_then_unique_basename() {
    let chapters = chapters();
    assert_eq!(resolve_chapter_index(Some(9), "anything", &chapters), Some(9));
    assert_eq!(resolve_chapter_index(None, "Text/ch1.xhtml", &chapters), Some(1));
    assert_eq!(resolve_chapter_index(None, "./Text/x/../ch1.xhtml", &chapters), Some(1));
    assert_eq!(resolve_chapter_index(None, "Text/ch4.xhtml", &chapters), Some(4));
    assert_eq!(resolve_chapter_index(None, "cover.xhtml", &chapters), Some(0));
    // two chapters share the base name `notes.xhtml`
    assert_eq!(resolve_chapter_index(None, "notes.xhtml", &chapters), None);
    assert_eq!(resolve_chapter_index(None, "Text/b/notes.xhtml", &chapters), Some(3));
    assert_eq!(resolve_chapter_index(None, "missing.xhtml", &chapters), None);
}

#[test]
fn toc_targets_fill_chapter_and_first_page() {
    let chapters = chapters();
    let toc = vec![
        nav("Cover", "Text/cover.xhtml", vec![]),
        nav("One", "Text/ch1.xhtml#start", vec![nav("Notes", "notes.xhtml", vec![])]),
        nav("Four", "ch4.xhtml", vec![]),
    ];
    let flat = flatten_toc(&toc);
    let first_pages = vec![Some(0), Some(1), None, None];
    let resolved = resolve_toc_targets(&flat, &vec![None, None, Some(2)], &chapters, &first_pages);
    let targets: Vec<(Option<usize>, Option<usize>)> = resolved
        .iter()
        .map(|e| (e.target_chapter, e.target_page_global))
        .collect();
    assert_eq!(
        targets,
        vec![(Some(0), Some(0)), (Some(1), Some(1)), (Some(2), None), (Some(4), None)]
    );
    assert_eq!(resolved[1].fragment.as_deref(), Some("start"));
    assert_eq!(resolved[2].depth, 1);

    let titles = build_chapter_title_lookup(&resolved, 5);
    assert_eq!(titles[1].as_deref(), Some("One"));
    assert_eq!(titles[2].as_deref(), Some("Notes"));
    assert_eq!(titles[3], None);
}
