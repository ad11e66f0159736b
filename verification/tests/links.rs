use atsumaru::deeplink::handle_deep_link;
use atsumaru::models::DeepLinkResult;

#[test]
fn manga_link_resolves_to_manga_reference() {
    let r = handle_deep_link("https://atsu.moe/manga/abc123");
    match r {
        Some(DeepLinkResult::Manga { key }) => assert_eq!(key, "abc123"),
        other => panic!("expected a manga reference, got {:?}", other),
    }
}

#[test]
fn manga_link_id_stops_at_next_segment() {
    let r = handle_deep_link("https://atsu.moe/manga/abc123/chapters");
    match r {
        Some(DeepLinkResult::Manga { key }) => assert_eq!(key, "abc123"),
        other => panic!("expected a manga reference, got {:?}", other),
    }
}

#[test]
fn read_link_resolves_to_chapter_reference() {
    let r = handle_deep_link("https://atsu.moe/read/abc123?chapterId=ch9");
    match r {
        Some(DeepLinkResult::Chapter { manga_key, key }) => {
            assert_eq!(manga_key, "abc123");
            assert_eq!(key, "ch9");
        },
        other => panic!("expected a chapter reference, got {:?}", other),
    }
}

#[test]
fn chapter_id_found_among_other_parameters() {
    let r = handle_deep_link("https://atsu.moe/read/abc123?foo=1&chapterId=ch9");
    match r {
        Some(DeepLinkResult::Chapter { manga_key, key }) => {
            assert_eq!(manga_key, "abc123");
            assert_eq!(key, "ch9");
        },
        other => panic!("expected a chapter reference, got {:?}", other),
    }
}

#[test]
fn chapter_id_value_stops_at_next_parameter() {
    let r = handle_deep_link("https://atsu.moe/read/a?chapterId=ch9&x=1");
    match r {
        Some(DeepLinkResult::Chapter { manga_key, key }) => {
            assert_eq!(manga_key, "a");
            assert_eq!(key, "ch9");
        },
        other => panic!("expected a chapter reference, got {:?}", other),
    }
}

#[test]
fn parameter_name_must_match_literally() {
    assert!(handle_deep_link("https://atsu.moe/read/a?xchapterId=z").is_none());
    assert!(handle_deep_link("https://atsu.moe/read/a?chapterIdx=z").is_none());
}

#[test]
fn read_link_without_chapter_id_gives_no_match() {
    let r = handle_deep_link("https://atsu.moe/read/abc123?foo=bar");
    assert!(r.is_none());
}

#[test]
fn read_link_without_query_gives_no_match() {
    let r = handle_deep_link("https://atsu.moe/read/abc123");
    assert!(r.is_none());
}

#[test]
fn read_link_with_empty_manga_id_gives_no_match() {
    let r = handle_deep_link("https://atsu.moe/read/?chapterId=ch9");
    assert!(r.is_none());
}

#[test]
fn read_link_with_empty_chapter_id_gives_no_match() {
    let r = handle_deep_link("https://atsu.moe/read/abc?chapterId=");
    assert!(r.is_none());
}

#[test]
fn unrelated_link_gives_no_match() {
    assert!(handle_deep_link("https://atsu.moe/about").is_none());
    assert!(handle_deep_link("").is_none());
}

#[test]
fn empty_manga_id_falls_through_to_read_pattern() {
    let r = handle_deep_link("https://atsu.moe/manga//read/abc?chapterId=ch1");
    match r {
        Some(DeepLinkResult::Chapter { manga_key, key }) => {
            assert_eq!(manga_key, "abc");
            assert_eq!(key, "ch1");
        },
        other => panic!("expected a chapter reference, got {:?}", other),
    }
}
