use atsumaru::client::{
    build_search_url, chapter_list_url, detail_url, has_next_page, home_sections,
    listing_request_url, page_list_url, pages_from_response, refresh_manga,
    search_request_url, search_result_from_response, sort_by_from_filters,
};
use atsumaru::mapper::build_manga_from_doc;
use atsumaru::models::{
    ChapterItem, ChapterListResponse, ChapterPage, ChapterPageResponse, FilterValue,
    HomeSectionKind, Manga, MangaPageDetail, MangaStatus, ReadChapter, Scanlator, SearchDocument,
    SearchHit, SearchResponse, Viewer,
};

fn doc(id: &str) -> SearchDocument {
    SearchDocument {
        id: Some(String::from(id)),
        title: Some(String::from("T")),
        poster: None,
        status: None,
        synopsis: None,
        tags: None,
        authors: None,
    }
}

fn blank_manga(key: &str) -> Manga {
    Manga {
        key: String::from(key),
        title: String::from("Old Title"),
        cover: Some(String::from("old-cover")),
        url: None,
        status: MangaStatus::Ongoing,
        description: Some(String::from("old words")),
        tags: None,
        authors: None,
        chapters: None,
        viewer: Viewer::Webtoon,
    }
}

fn empty_detail() -> MangaPageDetail {
    MangaPageDetail {
        id: None,
        title: None,
        english_title: None,
        poster: None,
        banner: None,
        status: None,
        synopsis: None,
        scanlators: None,
        genres: None,
        authors: None,
    }
}

#[test]
fn next_page_exists_when_found_exceeds_pages_so_far() {
    assert_eq!(has_next_page(100, 2, 24), true);
    assert_eq!(has_next_page(40, 2, 24), false);
    assert_eq!(has_next_page(48, 2, 24), false);
    assert_eq!(has_next_page(49, 2, 24), true);
}

#[test]
fn search_url_holds_query_page_and_fields() {
    let u = build_search_url("solo leveling", 2, 24, "views:desc");
    assert_eq!(
        u,
        "https://atsu.moe/collections/manga/documents/search?q=solo%20leveling&page=2&per_page=24&query_by=title,englishTitle,otherNames,authors&include_fields=id,title,englishTitle,poster,posterSmall,posterMedium,type,isAdult,status,year,synopsis,tags,authors&sort_by=views:desc"
    );
}

#[test]
fn search_url_without_sort_omits_the_parameter() {
    let u = build_search_url("*", 1, 24, "");
    assert!(u.ends_with("&query_by=title,englishTitle,otherNames,authors&include_fields=id,title,englishTitle,poster,posterSmall,posterMedium,type,isAdult,status,year,synopsis,tags,authors"));
    assert!(!u.contains("sort_by"));
    assert!(u.starts_with("https://atsu.moe/collections/manga/documents/search?q=*&page=1&per_page=24&"));
}

#[test]
fn search_query_escapes_every_space() {
    let u = build_search_url("a  b c", 1, 24, "");
    assert!(u.contains("?q=a%20%20b%20c&page=1&"));
}

#[test]
fn search_url_renders_negative_and_multi_digit_numbers() {
    let u = build_search_url("*", -3, 120, "");
    assert!(u.contains("&page=-3&per_page=120&"));
}

#[test]
fn search_request_defaults_to_wildcard_query() {
    let u = search_request_url(&None, 1, &Vec::new());
    assert!(u.starts_with("https://atsu.moe/collections/manga/documents/search?q=*&page=1&per_page=24&"));
    assert!(!u.contains("sort_by"));
}

#[test]
fn sort_filter_picks_field_and_order() {
    let filters = vec![FilterValue::Sort {
        id: String::from("sort"),
        index: 1,
        ascending: true,
    }];
    assert_eq!(sort_by_from_filters(&filters), "released:asc");
    let filters2 = vec![FilterValue::Sort {
        id: String::from("sort"),
        index: 0,
        ascending: false,
    }];
    assert_eq!(sort_by_from_filters(&filters2), "views:desc");
}

#[test]
fn unknown_sort_index_falls_back_to_views() {
    let filters = vec![FilterValue::Sort {
        id: String::from("sort"),
        index: 9,
        ascending: false,
    }];
    assert_eq!(sort_by_from_filters(&filters), "views:desc");
}

#[test]
fn filters_without_a_sort_give_no_parameter() {
    let filters = vec![FilterValue::Text {
        id: String::from("genre"),
        value: String::from("action"),
    }];
    assert_eq!(sort_by_from_filters(&filters), "");
    let other_id = vec![FilterValue::Sort {
        id: String::from("other"),
        index: 2,
        ascending: true,
    }];
    assert_eq!(sort_by_from_filters(&other_id), "");
}

#[test]
fn last_sort_filter_wins() {
    let filters = vec![
        FilterValue::Sort { id: String::from("sort"), index: 0, ascending: false },
        FilterValue::Sort { id: String::from("sort"), index: 2, ascending: true },
    ];
    assert_eq!(sort_by_from_filters(&filters), "title:asc");
}

#[test]
fn listings_map_to_fixed_sorts_with_fallback() {
    assert!(listing_request_url("views", 1).ends_with("&sort_by=views:desc"));
    assert!(listing_request_url("latest", 3).ends_with("&sort_by=released:desc"));
    assert!(listing_request_url("something-else", 1).ends_with("&sort_by=views:desc"));
    assert!(listing_request_url("latest", 3).contains("&page=3&"));
}

#[test]
fn endpoint_urls() {
    assert_eq!(detail_url("WgrNM"), "https://atsu.moe/api/manga/page?id=WgrNM");
    assert_eq!(
        chapter_list_url("WgrNM"),
        "https://atsu.moe/api/manga/allChapters?mangaId=WgrNM"
    );
    assert_eq!(
        page_list_url("WgrNM", "c1"),
        "https://atsu.moe/api/read/chapter?mangaId=WgrNM&chapterId=c1"
    );
}

#[test]
fn search_response_maps_every_hit() {
    let resp = SearchResponse {
        hits: vec![SearchHit { document: doc("a") }, SearchHit { document: doc("b") }],
        found: 100,
        page: 2,
    };
    let r = search_result_from_response(&resp, 24);
    assert_eq!(r.entries.len(), 2);
    assert_eq!(r.entries[0].key, "a");
    assert_eq!(r.entries[1].key, "b");
    assert_eq!(r.entries[0].url, build_manga_from_doc(&doc("a")).url);
    assert!(r.has_next_page);
}

#[test]
fn refresh_attaches_chapters_when_detail_decode_fails() {
    let manga = blank_manga("m1");
    let chapters = ChapterListResponse {
        chapters: vec![ChapterItem {
            id: String::from("c1"),
            title: None,
            number: 1,
            created_at: 2000,
            scanlation_manga_id: None,
        }],
    };
    let updated = refresh_manga(manga, true, true, &None, &Some(chapters));
    let chs = updated.chapters.expect("chapters should be attached");
    assert_eq!(chs.len(), 1);
    assert_eq!(chs[0].key, "c1");
    // the failed detail part left every other field untouched
    assert_eq!(updated.title, "Old Title");
    assert_eq!(updated.cover, Some(String::from("old-cover")));
    assert_eq!(updated.description, Some(String::from("old words")));
    assert_eq!(updated.status, MangaStatus::Ongoing);
}

#[test]
fn refresh_applies_detail_when_chapter_decode_fails() {
    let manga = blank_manga("m1");
    let mut detail = empty_detail();
    detail.title = Some(String::from("Fresh Title"));
    detail.status = Some(String::from("Completed"));
    let updated = refresh_manga(manga, true, true, &Some(detail), &None);
    assert_eq!(updated.title, "Fresh Title");
    assert_eq!(updated.status, MangaStatus::Completed);
    assert!(updated.chapters.is_none());
}

#[test]
fn refresh_joins_chapters_against_detail_scanlators() {
    let manga = blank_manga("m1");
    let mut detail = empty_detail();
    detail.scanlators = Some(vec![Scanlator {
        id: String::from("s1"),
        name: String::from("Group One"),
    }]);
    let chapters = ChapterListResponse {
        chapters: vec![ChapterItem {
            id: String::from("c1"),
            title: None,
            number: 1,
            created_at: 0,
            scanlation_manga_id: Some(String::from("s1")),
        }],
    };
    let updated = refresh_manga(manga, true, true, &Some(detail), &Some(chapters));
    let chs = updated.chapters.unwrap();
    assert_eq!(chs[0].scanlators, Some(vec![String::from("Group One")]));
}

#[test]
fn refresh_without_requests_changes_nothing() {
    let manga = blank_manga("m1");
    let updated = refresh_manga(manga, false, false, &None, &None);
    assert_eq!(updated.key, "m1");
    assert_eq!(updated.title, "Old Title");
    assert!(updated.chapters.is_none());
}

#[test]
fn page_list_resolves_every_image() {
    let resp = ChapterPageResponse {
        read_chapter: ReadChapter {
            id: String::from("c1"),
            title: None,
            pages: vec![
                ChapterPage { id: String::from("p1"), image: String::from("/static/1.png"), number: 1 },
                ChapterPage { id: String::from("p2"), image: String::from("2.png"), number: 2 },
            ],
        },
    };
    let pages = pages_from_response(&resp);
    assert_eq!(pages.len(), 2);
    assert_eq!(pages[0].url, "https://atsu.moe/static/1.png");
    assert_eq!(pages[1].url, "https://atsu.moe/static/2.png");
}

#[test]
fn home_sections_skip_failed_or_empty_fetches() {
    let m = build_manga_from_doc(&doc("a"));
    let sections = home_sections(Some(vec![m.clone()]), None);
    assert_eq!(sections.len(), 1);
    assert_eq!(sections[0].title, "Most Popular");
    assert_eq!(sections[0].kind, HomeSectionKind::BigScroller);

    let both = home_sections(Some(vec![m.clone()]), Some(vec![m.clone()]));
    assert_eq!(both.len(), 2);
    assert_eq!(both[1].title, "Latest Updates");
    assert_eq!(both[1].kind, HomeSectionKind::MangaList);
    assert_eq!(both[1].listing_id, Some(String::from("latest")));

    let none = home_sections(Some(Vec::new()), None);
    assert!(none.is_empty());
}
