use atsumaru::chapters::{build_chapter, chapter_url, ms_to_s, reconcile, ScanlatorTable};
use atsumaru::models::{ChapterItem, Scanlator};

fn item(id: &str, number: i64, scanlation: Option<&str>) -> ChapterItem {
    ChapterItem {
        id: String::from(id),
        title: None,
        number,
        created_at: 0,
        scanlation_manga_id: scanlation.map(String::from),
    }
}

fn table(rows: &[(&str, &str)]) -> ScanlatorTable {
    let entries = rows
        .iter()
        .map(|(id, name)| Scanlator { id: String::from(*id), name: String::from(*name) })
        .collect();
    ScanlatorTable { entries }
}

#[test]
fn chapters_sorted_by_number_descending() {
    let items = vec![item("a", 1, None), item("b", 3, None), item("c", 2, None)];
    let out = reconcile(&items, &table(&[]), "m1");
    let keys: Vec<&str> = out.iter().map(|c| c.key.as_str()).collect();
    assert_eq!(keys, vec!["b", "c", "a"]);
    let numbers: Vec<i64> = out.iter().map(|c| c.chapter_number.unwrap()).collect();
    assert_eq!(numbers, vec![3, 2, 1]);
}

#[test]
fn equal_numbers_keep_input_order() {
    let items = vec![
        item("first", 5, None),
        item("second", 5, None),
        item("third", 7, None),
        item("fourth", 5, None),
    ];
    let out = reconcile(&items, &table(&[]), "m1");
    let keys: Vec<&str> = out.iter().map(|c| c.key.as_str()).collect();
    assert_eq!(keys, vec!["third", "first", "second", "fourth"]);
}

#[test]
fn empty_chapter_list_reconciles_to_empty_output() {
    let items: Vec<ChapterItem> = Vec::new();
    let out = reconcile(&items, &table(&[("s1", "Group")]), "m1");
    assert!(out.is_empty());
}

#[test]
fn scanlation_id_absent_from_table_gives_absent_scanlators() {
    let items = vec![item("a", 1, Some("unknown-group"))];
    let out = reconcile(&items, &table(&[("s1", "Group One")]), "m1");
    assert_eq!(out[0].scanlators, None);
}

#[test]
fn missing_scanlation_id_gives_absent_scanlators() {
    let items = vec![item("a", 1, None)];
    let out = reconcile(&items, &table(&[("s1", "Group One")]), "m1");
    assert_eq!(out[0].scanlators, None);
}

#[test]
fn scanlation_id_in_table_gives_single_name() {
    let items = vec![item("a", 1, Some("s2"))];
    let out = reconcile(&items, &table(&[("s1", "Group One"), ("s2", "Group Two")]), "m1");
    assert_eq!(out[0].scanlators, Some(vec![String::from("Group Two")]));
}

#[test]
fn duplicate_scanlator_id_later_row_wins() {
    let t = table(&[("s1", "Old Name"), ("s1", "New Name")]);
    assert_eq!(t.lookup("s1"), Some(String::from("New Name")));
    assert_eq!(t.lookup("s9"), None);
}

#[test]
fn chapter_fields_pass_through() {
    let raw = ChapterItem {
        id: String::from("ch7"),
        title: Some(String::from("Seven")),
        number: 7,
        created_at: 1_700_000_123_456,
        scanlation_manga_id: None,
    };
    let c = build_chapter(&raw, "m1", &table(&[]));
    assert_eq!(c.key, "ch7");
    assert_eq!(c.title, Some(String::from("Seven")));
    assert_eq!(c.chapter_number, Some(7));
    assert_eq!(c.date_uploaded, Some(1_700_000_123));
    assert_eq!(c.url, Some(String::from("https://atsu.moe/read/m1?chapterId=ch7")));
    assert_eq!(c.scanlators, None);
}

#[test]
fn chapter_url_shape() {
    let u = chapter_url("WgrNM", "abc");
    assert_eq!(u, "https://atsu.moe/read/WgrNM?chapterId=abc");
}

#[test]
fn millisecond_dates_truncate_to_seconds() {
    assert_eq!(ms_to_s(0), 0);
    assert_eq!(ms_to_s(999), 0);
    assert_eq!(ms_to_s(1000), 1);
    assert_eq!(ms_to_s(1_700_000_123_456), 1_700_000_123);
    assert_eq!(ms_to_s(-1500), -1);
    assert_eq!(ms_to_s(i64::MIN), i64::MIN / 1000);
}
