use epub_stream_render::page_map::{
    ChapterRef, Locator, NavPoint, Navigation, PagePosition, ReadingPosition, RenderBookPageMap,
    RenderLocatorTargetKind,
};

fn chapter(index: usize, href: &str) -> ChapterRef {
    ChapterRef {
        index,
        idref: format!("c{}", index),
        href: href.to_string(),
        media_type: "application/xhtml+xml".to_string(),
    }
}

fn book_map() -> RenderBookPageMap {
    let chapters = vec![
        chapter(0, "OPS/cover.xhtml"),
        chapter(1, "OPS/text/ch1.xhtml"),
        chapter(2, "OPS/text/ch2.xhtml"),
        chapter(3, "OPS/notes/ch2.xhtml"),
    ];
    RenderBookPageMap::from_chapter_page_counts(&chapters, &[1, 3, 0, 2])
}

fn navigation() -> Navigation {
    Navigation {
        toc: vec![
            NavPoint {
                label: "Cover".to_string(),
                href: "OPS/cover.xhtml".to_string(),
                children: vec![],
            },
            NavPoint {
                label: "Chapter One".to_string(),
                href: "OPS/text/ch1.xhtml#start".to_string(),
                children: vec![],
            },
        ],
    }
}

#[test]
fn chapter_locator_resolves_to_chapter_start() {
    let map = book_map();
    let t = map.resolve_locator(&Locator::Chapter(1), None).expect("chapter 1");
    assert_eq!(t.page_index, 1);
    assert_eq!(t.chapter_index, 1);
    assert_eq!(t.kind, RenderLocatorTargetKind::ChapterStart);
    assert_eq!(t.fragment, None);
    assert_eq!(map.resolve_locator(&Locator::Chapter(2), None), None);
}

#[test]
fn href_and_fragment_locators() {
    let map = book_map();
    let t = map
        .resolve_locator(&Locator::Href("OPS/text/ch1.xhtml#s".to_string()), None)
        .expect("href");
    assert_eq!(t.page_index, 1);
    assert_eq!(t.kind, RenderLocatorTargetKind::FragmentFallbackChapterStart);
    assert_eq!(map.resolve_locator(&Locator::Fragment("s".to_string()), None), None);
}

#[test]
fn toc_id_locator_needs_navigation() {
    let map = book_map();
    let nav = navigation();
    let id = Locator::TocId("start".to_string());
    assert_eq!(map.resolve_locator(&id, None), None);
    let t = map.resolve_locator(&id, Some(&nav)).expect("toc id");
    assert_eq!(t.chapter_index, 1);
    assert_eq!(t.page_index, 1);
    assert_eq!(t.fragment.as_deref(), Some("start"));
    let t = map
        .resolve_locator(&Locator::TocId("Cover".to_string()), Some(&nav))
        .expect("label");
    assert_eq!(t.page_index, 0);
    assert_eq!(map.resolve_locator(&Locator::TocId("nope".to_string()), Some(&nav)), None);
}

#[test]
fn position_locator_prefers_href_then_chapter_index() {
    let map = book_map();
    let by_href = Locator::Position(ReadingPosition {
        chapter_index: 0,
        chapter_href: Some("OPS/notes/ch2.xhtml".to_string()),
        anchor: Some("n3".to_string()),
    });
    let t = map.resolve_locator(&by_href, None).expect("by href");
    assert_eq!(t.chapter_index, 3);
    assert_eq!(t.page_index, 4);
    assert_eq!(t.fragment.as_deref(), Some("n3"));
    assert_eq!(t.kind, RenderLocatorTargetKind::FragmentFallbackChapterStart);

    let unknown_href = Locator::Position(ReadingPosition {
        chapter_index: 1,
        chapter_href: Some("missing.xhtml".to_string()),
        anchor: Some(String::new()),
    });
    let t = map.resolve_locator(&unknown_href, None).expect("by index");
    assert_eq!(t.chapter_index, 1);
    assert_eq!(t.kind, RenderLocatorTargetKind::ChapterStart);
    assert_eq!(t.fragment.as_deref(), Some(""));

    let nothing = Locator::Position(ReadingPosition {
        chapter_index: 2,
        chapter_href: None,
        anchor: None,
    });
    assert_eq!(map.resolve_locator(&nothing, None), None);
}

#[test]
fn page_positions_clamp_to_last_page() {
    let map = book_map();
    assert_eq!(
        map.page_position_for_page_index(2),
        Some(PagePosition {
            chapter_index: 1,
            chapter_href: "OPS/text/ch1.xhtml".to_string(),
            chapter_page_index: 1,
            chapter_page_count: 3,
            global_page_index: 2,
            global_page_count: 6,
        })
    );
    let last = map.page_position_for_page_index(100).expect("clamped");
    assert_eq!(last.global_page_index, 5);
    assert_eq!(last.chapter_index, 3);
    assert_eq!(last.chapter_page_index, 1);
    assert_eq!(RenderBookPageMap::new().page_position_for_page_index(0), None);
}

#[test]
fn token_entry_prefers_href_then_index() {
    let map = book_map();
    let e = map
        .chapter_entry_for_token(Some("OPS/text/ch1.xhtml#x"), 3)
        .expect("by href");
    assert_eq!(e.chapter_index, 1);
    let e = map.chapter_entry_for_token(Some("OPS/text/ch2.xhtml"), 3).expect("by index");
    assert_eq!(e.chapter_index, 3);
    let e = map.chapter_entry_for_token(None, 0).expect("by index");
    assert_eq!(e.first_page_index, 0);
    assert!(map.chapter_entry_for_token(None, 2).is_none());
}

#[test]
fn token_entries_stay_inside_the_book() {
    let chapters = vec![chapter(0, "a.xhtml"), chapter(1, "b.xhtml"), chapter(2, "c.xhtml")];
    let old_map = RenderBookPageMap::from_chapter_page_counts(&chapters, &[3, 4, 2]);
    let pos = old_map.page_position_for_page_index(4).expect("position");
    assert_eq!((pos.chapter_index, pos.chapter_page_index), (1, 1));

    let changed_map = RenderBookPageMap::from_chapter_page_counts(&chapters, &[1]);
    assert!(changed_map
        .chapter_entry_for_token(Some(pos.chapter_href.as_str()), pos.chapter_index)
        .is_none());
    assert!(changed_map.chapter_entry_for_token(Some("missing.xhtml"), usize::MAX).is_none());
    let e = changed_map.chapter_entry_for_token(Some("a.xhtml"), 9).expect("chapter a");
    assert!(e.first_page_index + e.page_count <= changed_map.total_pages());

    let empty_map = RenderBookPageMap::from_chapter_page_counts(&chapters, &[]);
    assert_eq!(empty_map.total_pages(), 0);
    assert!(empty_map.chapter_entry_for_token(Some("a.xhtml"), 0).is_none());
}
