use atsumaru::mapper::{apply_detail, build_manga_from_doc, status_from};
use atsumaru::models::{
    Entity, ImageAsset, Manga, MangaPageDetail, MangaStatus, SearchDocument, Viewer,
};

fn empty_doc() -> SearchDocument {
    SearchDocument {
        id: None,
        title: None,
        poster: None,
        status: None,
        synopsis: None,
        tags: None,
        authors: None,
    }
}

fn empty_detail() -> MangaPageDetail {
    MangaPageDetail {
        id: None,
        title: None,
        english_title: None,
        poster: None,
        banner: None,
        status: None,
        synopsis: None,
        scanlators: None,
        genres: None,
        authors: None,
    }
}

fn blank_manga() -> Manga {
    Manga {
        key: String::from("k"),
        title: String::new(),
        cover: None,
        url: None,
        status: MangaStatus::Unknown,
        description: None,
        tags: None,
        authors: None,
        chapters: None,
        viewer: Viewer::Unknown,
    }
}

#[test]
fn status_mapping_recognized_values() {
    assert_eq!(status_from(&Some(String::from("Ongoing"))), MangaStatus::Ongoing);
    assert_eq!(status_from(&Some(String::from("Completed"))), MangaStatus::Completed);
    assert_eq!(status_from(&Some(String::from("Hiatus"))), MangaStatus::Hiatus);
}

#[test]
fn status_mapping_dropped_and_cancelled_both_yield_cancelled() {
    assert_eq!(status_from(&Some(String::from("Dropped"))), MangaStatus::Cancelled);
    assert_eq!(status_from(&Some(String::from("Cancelled"))), MangaStatus::Cancelled);
}

#[test]
fn status_mapping_is_total_on_unrecognized_strings() {
    assert_eq!(status_from(&Some(String::from("Foo"))), MangaStatus::Unknown);
    assert_eq!(status_from(&Some(String::from(""))), MangaStatus::Unknown);
    assert_eq!(status_from(&Some(String::from("ongoing"))), MangaStatus::Unknown);
    assert_eq!(status_from(&None), MangaStatus::Unknown);
}

#[test]
fn doc_maps_with_defaults_for_absent_fields() {
    let m = build_manga_from_doc(&empty_doc());
    assert_eq!(m.key, "");
    assert_eq!(m.title, "");
    assert_eq!(m.cover, None);
    assert_eq!(m.url, Some(String::from("https://atsu.moe/manga/")));
    assert_eq!(m.status, MangaStatus::Unknown);
    assert_eq!(m.description, None);
    assert_eq!(m.tags, None);
    assert_eq!(m.authors, None);
    assert!(m.chapters.is_none());
    assert_eq!(m.viewer, Viewer::Webtoon);
}

#[test]
fn doc_maps_all_fields() {
    let mut doc = empty_doc();
    doc.id = Some(String::from("abc123"));
    doc.title = Some(String::from("A Title"));
    doc.poster = Some(String::from("poster.jpg"));
    doc.status = Some(String::from("Ongoing"));
    doc.synopsis = Some(String::from("words"));
    doc.tags = Some(vec![String::from("Action")]);
    doc.authors = Some(vec![String::from("Someone")]);
    let m = build_manga_from_doc(&doc);
    assert_eq!(m.key, "abc123");
    assert_eq!(m.title, "A Title");
    assert_eq!(m.cover, Some(String::from("https://atsu.moe/static/poster.jpg")));
    assert_eq!(m.url, Some(String::from("https://atsu.moe/manga/abc123")));
    assert_eq!(m.status, MangaStatus::Ongoing);
    assert_eq!(m.description, Some(String::from("words")));
    assert_eq!(m.tags, Some(vec![String::from("Action")]));
    assert_eq!(m.authors, Some(vec![String::from("Someone")]));
}

#[test]
fn detail_authors_all_unnamed_yield_none_not_empty() {
    let mut detail = empty_detail();
    detail.authors = Some(vec![
        Entity { id: Some(String::from("1")), name: None },
        Entity { id: None, name: None },
    ]);
    let mut m = blank_manga();
    apply_detail(&mut m, &detail);
    assert_eq!(m.authors, None);
}

#[test]
fn detail_empty_author_list_yields_none() {
    let mut detail = empty_detail();
    detail.authors = Some(Vec::new());
    let mut m = blank_manga();
    apply_detail(&mut m, &detail);
    assert_eq!(m.authors, None);
}

#[test]
fn detail_named_entities_are_projected() {
    let mut detail = empty_detail();
    detail.authors = Some(vec![
        Entity { id: None, name: Some(String::from("Alice")) },
        Entity { id: None, name: None },
        Entity { id: None, name: Some(String::from("Bob")) },
    ]);
    detail.genres = Some(vec![Entity { id: None, name: Some(String::from("Action")) }]);
    let mut m = blank_manga();
    apply_detail(&mut m, &detail);
    assert_eq!(m.authors, Some(vec![String::from("Alice"), String::from("Bob")]));
    assert_eq!(m.tags, Some(vec![String::from("Action")]));
}

#[test]
fn detail_updates_fields_and_keeps_key() {
    let mut detail = empty_detail();
    detail.id = Some(String::from("xyz"));
    detail.title = Some(String::from("New Title"));
    detail.status = Some(String::from("Hiatus"));
    detail.synopsis = Some(String::from("story"));
    detail.poster = Some(ImageAsset { image: Some(String::from("/static/p.png")) });
    let mut m = blank_manga();
    apply_detail(&mut m, &detail);
    assert_eq!(m.key, "k");
    assert_eq!(m.title, "New Title");
    assert_eq!(m.cover, Some(String::from("https://atsu.moe/static/p.png")));
    assert_eq!(m.url, Some(String::from("https://atsu.moe/manga/xyz")));
    assert_eq!(m.status, MangaStatus::Hiatus);
    assert_eq!(m.description, Some(String::from("story")));
}

#[test]
fn detail_poster_without_image_gives_no_cover() {
    let mut detail = empty_detail();
    detail.poster = Some(ImageAsset { image: None });
    let mut m = blank_manga();
    m.cover = Some(String::from("old"));
    apply_detail(&mut m, &detail);
    assert_eq!(m.cover, None);
}
