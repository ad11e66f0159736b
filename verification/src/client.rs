//! Catalog client logic: building the four request URLs, translating filter
//! and listing choices into sort parameters, turning decoded payloads into
//! host entities, pagination, and the partial-success refresh step. The
//! transport that actually fetches the URLs lives outside the library.
use crate::chapters::{spec_reconcile, reconcile, ScanlatorTable};
use crate::mapper::{build_manga_from_doc, spec_apply_detail, spec_manga_from_doc, apply_detail};
use crate::models::{
    ChapterItemModel, ChapterListResponse, ChapterPageModel, ChapterPageResponse, FilterValue,
    FilterValueModel, HomeSection, HomeSectionKind, HomeSectionModel, Manga, MangaModel,
    MangaPageDetail, MangaPageDetailModel, MangaPageResult, Page, ScanlatorModel,
    SearchDocumentModel, SearchHit, SearchResponse,
};
use crate::strutil::{append_dec_i64, dec_rep_signed, escape_spaces, escape_spaces_str};
use crate::url::spec_resolve_image_url;
use crate::url::resolve_image_url;
use vstd::prelude::*;
use vstd::string::*;

verus! {

// ---------------------------------------------------------------------------
// Request URLs
// ---------------------------------------------------------------------------
/// The search endpoint request: query (spaces escaped), page, page size, the
/// fixed field lists, and — only when one was chosen — the sort parameter.
pub open spec fn spec_search_url(
    q: Seq<char>,
    page: int,
    per_page: int,
    sort_by: Seq<char>,
) -> Seq<char> {
    let head = "https://atsu.moe/collections/manga/documents/search?q="@ + escape_spaces(q)
        + "&page="@ + dec_rep_signed(page) + "&per_page="@ + dec_rep_signed(per_page)
        + "&query_by=title,englishTitle,otherNames,authors&include_fields=id,title,englishTitle,poster,posterSmall,posterMedium,type,isAdult,status,year,synopsis,tags,authors"@;
    if sort_by.len() == 0 {
        head
    } else {
        head + "&sort_by="@ + sort_by
    }
}

/// Builds the search endpoint URL.
pub fn build_search_url(q: &str, page: i32, per_page: i32, sort_by: &str) -> (r: String)
    ensures
        r@ == spec_search_url(q@, page as int, per_page as int, sort_by@),
{
    let mut r = String::new();
    r.append("https://atsu.moe/collections/manga/documents/search?q=");
    let esc = escape_spaces_str(q);
    r.append(esc.as_str());
    r.append("&page=");
    append_dec_i64(&mut r, page as i64);
    r.append("&per_page=");
    append_dec_i64(&mut r, per_page as i64);
    r.append(
        "&query_by=title,englishTitle,otherNames,authors&include_fields=id,title,englishTitle,poster,posterSmall,posterMedium,type,isAdult,status,year,synopsis,tags,authors",
    );
    if !sort_by.is_empty() {
        r.append("&sort_by=");
        r.append(sort_by);
    }
    assert(r@ =~= spec_search_url(q@, page as int, per_page as int, sort_by@));
    r
}

/// The detail endpoint request for one manga id.
pub open spec fn spec_detail_url(id: Seq<char>) -> Seq<char> {
    "https://atsu.moe/api/manga/page?id="@ + id
}

/// Builds the detail endpoint URL.
pub fn detail_url(id: &str) -> (r: String)
    ensures
        r@ == spec_detail_url(id@),
{
    let mut r = String::new();
    r.append("https://atsu.moe/api/manga/page?id=");
    r.append(id);
    assert(r@ =~= spec_detail_url(id@));
    r
}

/// The chapter-list endpoint request for one manga id.
pub open spec fn spec_chapter_list_url(id: Seq<char>) -> Seq<char> {
    "https://atsu.moe/api/manga/allChapters?mangaId="@ + id
}

/// Builds the chapter-list endpoint URL.
pub fn chapter_list_url(id: &str) -> (r: String)
    ensures
        r@ == spec_chapter_list_url(id@),
{
    let mut r = String::new();
    r.append("https://atsu.moe/api/manga/allChapters?mangaId=");
    r.append(id);
    assert(r@ =~= spec_chapter_list_url(id@));
    r
}

/// The chapter-page endpoint request for one chapter of one manga.
pub open spec fn spec_page_list_url(manga_key: Seq<char>, chapter_key: Seq<char>) -> Seq<char> {
    "https://atsu.moe/api/read/chapter?mangaId="@ + manga_key + "&chapterId="@ + chapter_key
}

/// Builds the chapter-page endpoint URL.
pub fn page_list_url(manga_key: &str, chapter_key: &str) -> (r: String)
    ensures
        r@ == spec_page_list_url(manga_key@, chapter_key@),
{
    let mut r = String::new();
    r.append("https://atsu.moe/api/read/chapter?mangaId=");
    r.append(manga_key);
    r.append("&chapterId=");
    r.append(chapter_key);
    assert(r@ =~= spec_page_list_url(manga_key@, chapter_key@));
    r
}

// ---------------------------------------------------------------------------
// Sort filters and listings
// ---------------------------------------------------------------------------
/// The sort field an index chooses; anything outside the enumerated set falls
/// back to the default.
pub open spec fn spec_sort_field(index: int) -> Seq<char> {
    if index == 1 {
        "released"@
    } else if index == 2 {
        "title"@
    } else {
        "views"@
    }
}

/// The `field:order` sort parameter.
pub open spec fn spec_sort_param(index: int, ascending: bool) -> Seq<char> {
    spec_sort_field(index) + ":"@ + (if ascending {
        "asc"@
    } else {
        "desc"@
    })
}

/// The sort parameter the filters choose: the last sort filter named `sort`
/// wins; none gives the empty parameter.
pub open spec fn spec_sort_by(filters: Seq<FilterValueModel>) -> Seq<char>
    decreases filters.len(),
{
    if filters.len() == 0 {
        Seq::empty()
    } else {
        match filters.last() {
            FilterValueModel::Sort { id, index, ascending } => if id == "sort"@ {
                spec_sort_param(index, ascending)
            } else {
                spec_sort_by(filters.drop_last())
            },
            FilterValueModel::Text { .. } => spec_sort_by(filters.drop_last()),
        }
    }
}

fn sort_param(index: i32, ascending: bool) -> (r: String)
    ensures
        r@ == spec_sort_param(index as int, ascending),
{
    let mut r = String::new();
    if index == 1 {
        r.append("released");
    } else if index == 2 {
        r.append("title");
    } else {
        r.append("views");
    }
    r.append(":");
    if ascending {
        r.append("asc");
    } else {
        r.append("desc");
    }
    assert(r@ =~= spec_sort_param(index as int, ascending));
    r
}

/// Reads the host's filters into the sort parameter.
pub fn sort_by_from_filters(filters: &Vec<FilterValue>) -> (r: String)
    ensures
        r@ == spec_sort_by(filters.deep_view()),
{
    let mut r = String::new();
    let n = filters.len();
    assert(r@ =~= spec_sort_by(filters.deep_view().subrange(0, 0)));
    let mut i: usize = 0;
    while i < n
        invariant
            i <= n,
            n == filters.len(),
            r@ == spec_sort_by(filters.deep_view().subrange(0, i as int)),
        decreases n - i,
    {
        let ghost pre = filters.deep_view().subrange(0, i as int);
        let ghost cur = filters.deep_view().subrange(0, i + 1);
        assert(cur.last() == filters.deep_view()[i as int]);
        assert(cur.drop_last() =~= pre);
        match &filters[i] {
            FilterValue::Sort { id, index, ascending } => {
                if crate::strutil::str_eq(id.as_str(), "sort") {
                    r = sort_param(*index, *ascending);
                }
            },
            FilterValue::Text { .. } => {
            },
        }
        i += 1;
    }
    assert(filters.deep_view().subrange(0, n as int) =~= filters.deep_view());
    r
}

/// The fixed sort parameter of a named listing; an unknown listing id falls
/// back to the default rather than failing.
pub open spec fn spec_listing_sort(id: Seq<char>) -> Seq<char> {
    if id == "latest"@ {
        "released:desc"@
    } else {
        "views:desc"@
    }
}

/// The sort parameter for a named listing.
pub fn listing_sort(id: &str) -> (r: String)
    ensures
        r@ == spec_listing_sort(id@),
{
    let mut r = String::new();
    if crate::strutil::str_eq(id, "latest") {
        r.append("released:desc");
    } else {
        r.append("views:desc");
    }
    assert(r@ =~= spec_listing_sort(id@));
    r
}

// ---------------------------------------------------------------------------
// Search results and pagination
// ---------------------------------------------------------------------------
/// Whether a further page exists: more documents were found than the pages so
/// far could hold.
pub open spec fn spec_has_next_page(found: int, page: int, per_page: int) -> bool {
    found > page * per_page
}

/// Computes whether a further page exists, over the full integer range.
pub fn has_next_page(found: i32, page: i32, per_page: i32) -> (r: bool)
    ensures
        r == spec_has_next_page(found as int, page as int, per_page as int),
{
    let p = page as i64;
    let pp = per_page as i64;
    proof {
        assert(p * pp <= 0x4000_0000_0000_0000 && p * pp >= -0x4000_0000_0000_0000)
            by (nonlinear_arith)
            requires
                -0x8000_0000 <= p <= 0x7fff_ffff,
                -0x8000_0000 <= pp <= 0x7fff_ffff,
        ;
    }
    (found as i64) > p * pp
}

/// The entities a list of search hits maps to, in order.
pub open spec fn spec_entries_from_hits(hits: Seq<SearchDocumentModel>) -> Seq<MangaModel> {
    hits.map_values(|d: SearchDocumentModel| spec_manga_from_doc(d))
}

/// Maps every search hit into a `Manga` entity.
pub fn entries_from_hits(hits: &Vec<SearchHit>) -> (r: Vec<Manga>)
    ensures
        r.deep_view() == spec_entries_from_hits(hits.deep_view()),
{
    let ghost f = |d: SearchDocumentModel| spec_manga_from_doc(d);
    let n = hits.len();
    let mut r: Vec<Manga> = Vec::new();
    assert(r.deep_view() =~= hits.deep_view().subrange(0, 0).map_values(f));
    let mut i: usize = 0;
    while i < n
        invariant
            i <= n,
            n == hits.len(),
            f == (|d: SearchDocumentModel| spec_manga_from_doc(d)),
            r.deep_view() == hits.deep_view().subrange(0, i as int).map_values(f),
        decreases n - i,
    {
        let ghost prev = r.deep_view();
        let m = build_manga_from_doc(&hits[i].document);
        r.push(m);
        proof {
            assert(r.deep_view() =~= prev.push(m@));
            assert(hits.deep_view()[i as int] == hits[i as int]@);
            assert(hits.deep_view().subrange(0, i + 1).map_values(f) =~= hits.deep_view().subrange(
                0,
                i as int,
            ).map_values(f).push(f(hits.deep_view()[i as int])));
        }
        i += 1;
    }
    assert(hits.deep_view().subrange(0, n as int) =~= hits.deep_view());
    r
}

/// Turns a decoded search payload into the host's result page: every hit
/// mapped, and the next-page flag computed from the reported totals.
pub fn search_result_from_response(resp: &SearchResponse, per_page: i32) -> (r: MangaPageResult)
    ensures
        r@.entries == spec_entries_from_hits(resp@.hits),
        r@.has_next_page == spec_has_next_page(resp@.found, resp@.page, per_page as int),
{
    MangaPageResult {
        entries: entries_from_hits(&resp.hits),
        has_next_page: has_next_page(resp.found, resp.page, per_page),
    }
}

/// The search request `get_search_manga_list` issues: the query defaults to
/// the wildcard, the page size is fixed at 24, and the sort parameter comes
/// from the filters.
pub open spec fn spec_search_request_url(
    query: Option<Seq<char>>,
    page: int,
    filters: Seq<FilterValueModel>,
) -> Seq<char> {
    spec_search_url(
        match query {
            Some(q) => q,
            None => "*"@,
        },
        page,
        24,
        spec_sort_by(filters),
    )
}

/// Builds the search request for a host query: wildcard when no query was
/// given, page size 24, sort chosen by the filters.
pub fn search_request_url(query: &Option<String>, page: i32, filters: &Vec<FilterValue>) -> (r:
    String)
    ensures
        r@ == spec_search_request_url(query.deep_view(), page as int, filters.deep_view()),
{
    let sort_by = sort_by_from_filters(filters);
    match query {
        Some(q) => build_search_url(q.as_str(), page, 24, sort_by.as_str()),
        None => build_search_url("*", page, 24, sort_by.as_str()),
    }
}

/// The request a named listing issues: wildcard query, page size 24, the
/// listing's fixed sort parameter.
pub open spec fn spec_listing_request_url(id: Seq<char>, page: int) -> Seq<char> {
    spec_search_url("*"@, page, 24, spec_listing_sort(id))
}

/// Builds the request for a named listing.
pub fn listing_request_url(id: &str, page: i32) -> (r: String)
    ensures
        r@ == spec_listing_request_url(id@, page as int),
{
    let sort_by = listing_sort(id);
    build_search_url("*", page, 24, sort_by.as_str())
}

// ---------------------------------------------------------------------------
// Detail refresh with partial success
// ---------------------------------------------------------------------------
/// The scanlator table a fetched detail record provides; a missing record or
/// a missing list gives the empty table.
pub open spec fn spec_refresh_table(detail: Option<MangaPageDetailModel>) -> Seq<ScanlatorModel> {
    match detail {
        Some(d) => match d.scanlators {
            Some(rows) => rows,
            None => Seq::empty(),
        },
        None => Seq::empty(),
    }
}

/// The manga after a refresh. `detail` and `chapters` stand for the two
/// sub-fetches: present when the fetch was made and its payload decoded,
/// absent when it was skipped or failed. Each requested part that arrived is
/// applied; a part that did not leaves its fields untouched, so a malformed
/// detail payload never keeps chapter data from being attached, and vice
/// versa.
pub open spec fn spec_refresh(
    m: MangaModel,
    needs_details: bool,
    needs_chapters: bool,
    detail: Option<MangaPageDetailModel>,
    chapters: Option<Seq<ChapterItemModel>>,
) -> MangaModel {
    let with_details = if needs_details && detail is Some {
        spec_apply_detail(m, detail->0)
    } else {
        m
    };
    if needs_chapters && chapters is Some {
        MangaModel {
            chapters: Some(spec_reconcile(chapters->0, spec_refresh_table(detail), m.key)),
            ..with_details
        }
    } else {
        with_details
    }
}

/// Refreshes a manga from the decoded results of the two sub-fetches.
pub fn refresh_manga(
    manga: Manga,
    needs_details: bool,
    needs_chapters: bool,
    detail: &Option<MangaPageDetail>,
    chapters: &Option<ChapterListResponse>,
) -> (m: Manga)
    ensures
        m@ == spec_refresh(
            manga@,
            needs_details,
            needs_chapters,
            detail.deep_view(),
            chapters.deep_view(),
        ),
{
    let key = manga.key.clone();
    let table = match detail {
        Some(d) => ScanlatorTable::from_detail(&d.scanlators),
        None => {
            let t = ScanlatorTable { entries: Vec::new() };
            assert(t@ =~= Seq::<ScanlatorModel>::empty());
            t
        },
    };
    assert(table@ == spec_refresh_table(detail.deep_view()));
    let mut updated = manga;
    if needs_details {
        match detail {
            Some(d) => apply_detail(&mut updated, d),
            None => {
            },
        }
    }
    if needs_chapters {
        match chapters {
            Some(resp) => {
                let chs = reconcile(&resp.chapters, &table, key.as_str());
                updated.chapters = Some(chs);
            },
            None => {
            },
        }
    }
    assert(updated@ =~= spec_refresh(
        manga@,
        needs_details,
        needs_chapters,
        detail.deep_view(),
        chapters.deep_view(),
    ));
    updated
}

/// Law: partial success — when both parts are requested and the detail
/// payload failed to decode, a successful chapter fetch still attaches the
/// reconciled chapters (joined against the empty table), and every other
/// field keeps its old value.
pub proof fn lemma_refresh_chapters_survive_detail_failure(
    m: MangaModel,
    items: Seq<ChapterItemModel>,
)
    ensures
        spec_refresh(m, true, true, None, Some(items)).chapters == Some(
            spec_reconcile(items, Seq::<ScanlatorModel>::empty(), m.key),
        ),
        spec_refresh(m, true, true, None, Some(items)).key == m.key,
        spec_refresh(m, true, true, None, Some(items)).title == m.title,
        spec_refresh(m, true, true, None, Some(items)).cover == m.cover,
        spec_refresh(m, true, true, None, Some(items)).url == m.url,
        spec_refresh(m, true, true, None, Some(items)).status == m.status,
        spec_refresh(m, true, true, None, Some(items)).description == m.description,
        spec_refresh(m, true, true, None, Some(items)).tags == m.tags,
        spec_refresh(m, true, true, None, Some(items)).authors == m.authors,
{
}

/// Law: partial success the other way — when the chapter fetch failed, a
/// decoded detail record is still applied in full.
pub proof fn lemma_refresh_details_survive_chapter_failure(
    m: MangaModel,
    d: MangaPageDetailModel,
)
    ensures
        spec_refresh(m, true, true, Some(d), None) == spec_apply_detail(m, d),
{
}

// ---------------------------------------------------------------------------
// Chapter pages
// ---------------------------------------------------------------------------
/// Every page image of the chapter, its URL resolved, in page order.
pub open spec fn spec_pages(pages: Seq<ChapterPageModel>) -> Seq<Seq<char>> {
    pages.map_values(|p: ChapterPageModel| spec_resolve_image_url(p.image))
}

/// Turns a decoded chapter-page payload into the host's page list.
pub fn pages_from_response(resp: &ChapterPageResponse) -> (r: Vec<Page>)
    ensures
        r.deep_view() == spec_pages(resp@.pages),
{
    let ghost f = |p: ChapterPageModel| spec_resolve_image_url(p.image);
    let pages = &resp.read_chapter.pages;
    let n = pages.len();
    let mut r: Vec<Page> = Vec::new();
    assert(r.deep_view() =~= pages.deep_view().subrange(0, 0).map_values(f));
    let mut i: usize = 0;
    while i < n
        invariant
            i <= n,
            n == pages.len(),
            f == (|p: ChapterPageModel| spec_resolve_image_url(p.image)),
            r.deep_view() == pages.deep_view().subrange(0, i as int).map_values(f),
        decreases n - i,
    {
        let ghost prev = r.deep_view();
        let page = Page { url: resolve_image_url(pages[i].image.clone()) };
        r.push(page);
        proof {
            assert(r.deep_view() =~= prev.push(page@));
            assert(pages.deep_view()[i as int] == pages[i as int]@);
            assert(pages.deep_view().subrange(0, i + 1).map_values(f)
                =~= pages.deep_view().subrange(0, i as int).map_values(f).push(
                f(pages.deep_view()[i as int]),
            ));
        }
        i += 1;
    }
    assert(pages.deep_view().subrange(0, n as int) =~= pages.deep_view());
    r
}

// ---------------------------------------------------------------------------
// Home screen
// ---------------------------------------------------------------------------
/// The home screen the two fixed fetches produce: a big scroller of the
/// popular entries when that fetch succeeded with at least one entry, then a
/// list of the latest entries likewise; a failed or empty fetch contributes
/// no section.
pub open spec fn spec_home_sections(
    popular: Option<Seq<MangaModel>>,
    latest: Option<Seq<MangaModel>>,
) -> Seq<HomeSectionModel> {
    let a: Seq<HomeSectionModel> = match popular {
        Some(es) => if es.len() > 0 {
            seq![
                HomeSectionModel {
                    title: "Most Popular"@,
                    kind: HomeSectionKind::BigScroller,
                    entries: es,
                    listing_id: None,
                    listing_name: None,
                },
            ]
        } else {
            Seq::empty()
        },
        None => Seq::empty(),
    };
    let b: Seq<HomeSectionModel> = match latest {
        Some(es) => if es.len() > 0 {
            seq![
                HomeSectionModel {
                    title: "Latest Updates"@,
                    kind: HomeSectionKind::MangaList,
                    entries: es,
                    listing_id: Some("latest"@),
                    listing_name: Some("Latest Updates"@),
                },
            ]
        } else {
            Seq::empty()
        },
        None => Seq::empty(),
    };
    a + b
}

/// Builds the home sections from the two fetch results (absent on a failed
/// fetch).
pub fn home_sections(popular: Option<Vec<Manga>>, latest: Option<Vec<Manga>>) -> (r: Vec<
    HomeSection,
>)
    ensures
        r.deep_view() == spec_home_sections(popular.deep_view(), latest.deep_view()),
{
    let mut r: Vec<HomeSection> = Vec::new();
    match popular {
        Some(es) => {
            if es.len() > 0 {
                r.push(
                    HomeSection {
                        title: "Most Popular".to_owned(),
                        kind: HomeSectionKind::BigScroller,
                        entries: es,
                        listing_id: None,
                        listing_name: None,
                    },
                );
            }
        },
        None => {
        },
    }
    match latest {
        Some(es) => {
            if es.len() > 0 {
                r.push(
                    HomeSection {
                        title: "Latest Updates".to_owned(),
                        kind: HomeSectionKind::MangaList,
                        entries: es,
                        listing_id: Some("latest".to_owned()),
                        listing_name: Some("Latest Updates".to_owned()),
                    },
                );
            }
        },
        None => {
        },
    }
    assert(r.deep_view() =~= spec_home_sections(popular.deep_view(), latest.deep_view()));
    r
}

} // verus!
