//! Typed shapes for the four upstream payloads (search, detail, chapter list,
//! chapter pages) and the host-facing entities they are normalized into.
//! Each executable type carries a ghost model (`View`/`DeepView`) over which
//! the contracts speak.
use vstd::prelude::*;

verus! {

// ---------------------------------------------------------------------------
// Upstream payload shapes
// ---------------------------------------------------------------------------
/// One document of the search/listing index; fields are optional because the
/// index may omit them.
#[derive(Clone, Debug)]
pub struct SearchDocument {
    pub id: Option<String>,
    pub title: Option<String>,
    pub poster: Option<String>,
    pub status: Option<String>,
    pub synopsis: Option<String>,
    pub tags: Option<Vec<String>>,
    pub authors: Option<Vec<String>>,
}

#[verifier::ext_equal]
pub ghost struct SearchDocumentModel {
    pub id: Option<Seq<char>>,
    pub title: Option<Seq<char>>,
    pub poster: Option<Seq<char>>,
    pub status: Option<Seq<char>>,
    pub synopsis: Option<Seq<char>>,
    pub tags: Option<Seq<Seq<char>>>,
    pub authors: Option<Seq<Seq<char>>>,
}

impl View for SearchDocument {
    type V = SearchDocumentModel;

    open spec fn view(&self) -> SearchDocumentModel {
        SearchDocumentModel {
            id: self.id.deep_view(),
            title: self.title.deep_view(),
            poster: self.poster.deep_view(),
            status: self.status.deep_view(),
            synopsis: self.synopsis.deep_view(),
            tags: self.tags.deep_view(),
            authors: self.authors.deep_view(),
        }
    }
}

impl DeepView for SearchDocument {
    type V = SearchDocumentModel;

    open spec fn deep_view(&self) -> SearchDocumentModel {
        self.view()
    }
}

/// One hit of the search index.
#[derive(Clone, Debug)]
pub struct SearchHit {
    pub document: SearchDocument,
}

impl View for SearchHit {
    type V = SearchDocumentModel;

    open spec fn view(&self) -> SearchDocumentModel {
        self.document.view()
    }
}

impl DeepView for SearchHit {
    type V = SearchDocumentModel;

    open spec fn deep_view(&self) -> SearchDocumentModel {
        self.view()
    }
}

/// The search endpoint's payload: hits plus the pagination counters.
#[derive(Clone, Debug)]
pub struct SearchResponse {
    pub hits: Vec<SearchHit>,
    pub found: i32,
    pub page: i32,
}

#[verifier::ext_equal]
pub ghost struct SearchResponseModel {
    pub hits: Seq<SearchDocumentModel>,
    pub found: int,
    pub page: int,
}

impl View for SearchResponse {
    type V = SearchResponseModel;

    open spec fn view(&self) -> SearchResponseModel {
        SearchResponseModel {
            hits: self.hits.deep_view(),
            found: self.found as int,
            page: self.page as int,
        }
    }
}

/// A nested image asset of the detail payload.
#[derive(Clone, Debug)]
pub struct ImageAsset {
    pub image: Option<String>,
}

impl View for ImageAsset {
    type V = Option<Seq<char>>;

    open spec fn view(&self) -> Option<Seq<char>> {
        self.image.deep_view()
    }
}

impl DeepView for ImageAsset {
    type V = Option<Seq<char>>;

    open spec fn deep_view(&self) -> Option<Seq<char>> {
        self.view()
    }
}

/// A named entity of the detail payload (an author or a genre); either field
/// may be missing.
#[derive(Clone, Debug)]
pub struct Entity {
    pub id: Option<String>,
    pub name: Option<String>,
}

#[verifier::ext_equal]
pub ghost struct EntityModel {
    pub id: Option<Seq<char>>,
    pub name: Option<Seq<char>>,
}

impl View for Entity {
    type V = EntityModel;

    open spec fn view(&self) -> EntityModel {
        EntityModel { id: self.id.deep_view(), name: self.name.deep_view() }
    }
}

impl DeepView for Entity {
    type V = EntityModel;

    open spec fn deep_view(&self) -> EntityModel {
        self.view()
    }
}

/// One row of the detail payload's scanlator side table.
#[derive(Clone, Debug)]
pub struct Scanlator {
    pub id: String,
    pub name: String,
}

#[verifier::ext_equal]
pub ghost struct ScanlatorModel {
    pub id: Seq<char>,
    pub name: Seq<char>,
}

impl View for Scanlator {
    type V = ScanlatorModel;

    open spec fn view(&self) -> ScanlatorModel {
        ScanlatorModel { id: self.id@, name: self.name@ }
    }
}

impl DeepView for Scanlator {
    type V = ScanlatorModel;

    open spec fn deep_view(&self) -> ScanlatorModel {
        self.view()
    }
}

/// The authoritative single-manga record of the detail endpoint.
#[derive(Clone, Debug)]
pub struct MangaPageDetail {
    pub id: Option<String>,
    pub title: Option<String>,
    pub english_title: Option<String>,
    pub poster: Option<ImageAsset>,
    pub banner: Option<ImageAsset>,
    pub status: Option<String>,
    pub synopsis: Option<String>,
    pub scanlators: Option<Vec<Scanlator>>,
    pub genres: Option<Vec<Entity>>,
    pub authors: Option<Vec<Entity>>,
}

#[verifier::ext_equal]
pub ghost struct MangaPageDetailModel {
    pub id: Option<Seq<char>>,
    pub title: Option<Seq<char>>,
    pub english_title: Option<Seq<char>>,
    pub poster: Option<Option<Seq<char>>>,
    pub banner: Option<Option<Seq<char>>>,
    pub status: Option<Seq<char>>,
    pub synopsis: Option<Seq<char>>,
    pub scanlators: Option<Seq<ScanlatorModel>>,
    pub genres: Option<Seq<EntityModel>>,
    pub authors: Option<Seq<EntityModel>>,
}

impl View for MangaPageDetail {
    type V = MangaPageDetailModel;

    open spec fn view(&self) -> MangaPageDetailModel {
        MangaPageDetailModel {
            id: self.id.deep_view(),
            title: self.title.deep_view(),
            english_title: self.english_title.deep_view(),
            poster: self.poster.deep_view(),
            banner: self.banner.deep_view(),
            status: self.status.deep_view(),
            synopsis: self.synopsis.deep_view(),
            scanlators: self.scanlators.deep_view(),
            genres: self.genres.deep_view(),
            authors: self.authors.deep_view(),
        }
    }
}

impl DeepView for MangaPageDetail {
    type V = MangaPageDetailModel;

    open spec fn deep_view(&self) -> MangaPageDetailModel {
        self.view()
    }
}

/// The envelope the detail endpoint wraps its record in.
#[derive(Clone, Debug)]
pub struct MangaPageWrapper {
    pub manga_page: MangaPageDetail,
}

impl View for MangaPageWrapper {
    type V = MangaPageDetailModel;

    open spec fn view(&self) -> MangaPageDetailModel {
        self.manga_page.view()
    }
}

/// One raw chapter record of the chapter-list endpoint. The upstream chapter
/// number is a floating-point value; the library holds it as an
/// order-preserving integer key chosen by the caller, in which a larger key
/// means a later chapter and a missing number is encoded as `0`.
#[derive(Clone, Debug)]
pub struct ChapterItem {
    pub id: String,
    pub title: Option<String>,
    pub number: i64,
    pub created_at: i64,
    pub scanlation_manga_id: Option<String>,
}

#[verifier::ext_equal]
pub ghost struct ChapterItemModel {
    pub id: Seq<char>,
    pub title: Option<Seq<char>>,
    pub number: int,
    pub created_at: int,
    pub scanlation_manga_id: Option<Seq<char>>,
}

impl View for ChapterItem {
    type V = ChapterItemModel;

    open spec fn view(&self) -> ChapterItemModel {
        ChapterItemModel {
            id: self.id@,
            title: self.title.deep_view(),
            number: self.number as int,
            created_at: self.created_at as int,
            scanlation_manga_id: self.scanlation_manga_id.deep_view(),
        }
    }
}

impl DeepView for ChapterItem {
    type V = ChapterItemModel;

    open spec fn deep_view(&self) -> ChapterItemModel {
        self.view()
    }
}

/// The chapter-list endpoint's payload.
#[derive(Clone, Debug)]
pub struct ChapterListResponse {
    pub chapters: Vec<ChapterItem>,
}

impl View for ChapterListResponse {
    type V = Seq<ChapterItemModel>;

    open spec fn view(&self) -> Seq<ChapterItemModel> {
        self.chapters.deep_view()
    }
}

impl DeepView for ChapterListResponse {
    type V = Seq<ChapterItemModel>;

    open spec fn deep_view(&self) -> Seq<ChapterItemModel> {
        self.view()
    }
}

/// One page image record of the chapter-page endpoint.
#[derive(Clone, Debug)]
pub struct ChapterPage {
    pub id: String,
    pub image: String,
    pub number: i32,
}

#[verifier::ext_equal]
pub ghost struct ChapterPageModel {
    pub id: Seq<char>,
    pub image: Seq<char>,
    pub number: int,
}

impl View for ChapterPage {
    type V = ChapterPageModel;

    open spec fn view(&self) -> ChapterPageModel {
        ChapterPageModel { id: self.id@, image: self.image@, number: self.number as int }
    }
}

impl DeepView for ChapterPage {
    type V = ChapterPageModel;

    open spec fn deep_view(&self) -> ChapterPageModel {
        self.view()
    }
}

/// The chapter being read, with its page images.
#[derive(Clone, Debug)]
pub struct ReadChapter {
    pub id: String,
    pub title: Option<String>,
    pub pages: Vec<ChapterPage>,
}

#[verifier::ext_equal]
pub ghost struct ReadChapterModel {
    pub id: Seq<char>,
    pub title: Option<Seq<char>>,
    pub pages: Seq<ChapterPageModel>,
}

impl View for ReadChapter {
    type V = ReadChapterModel;

    open spec fn view(&self) -> ReadChapterModel {
        ReadChapterModel {
            id: self.id@,
            title: self.title.deep_view(),
            pages: self.pages.deep_view(),
        }
    }
}

/// The chapter-page endpoint's payload.
#[derive(Clone, Debug)]
pub struct ChapterPageResponse {
    pub read_chapter: ReadChapter,
}

impl View for ChapterPageResponse {
    type V = ReadChapterModel;

    open spec fn view(&self) -> ReadChapterModel {
        self.read_chapter.view()
    }
}

// ---------------------------------------------------------------------------
// Host-facing entities
// ---------------------------------------------------------------------------
/// Publication status of a manga.
#[derive(Clone, Copy, Debug, PartialEq, Eq, Structural)]
pub enum MangaStatus {
    Unknown,
    Ongoing,
    Completed,
    Cancelled,
    Hiatus,
}

/// How the host should page through a manga.
#[derive(Clone, Copy, Debug, PartialEq, Eq, Structural)]
pub enum Viewer {
    Unknown,
    LeftToRight,
    RightToLeft,
    Vertical,
    Webtoon,
}

/// A chapter as handed to the host. `chapter_number` and `date_uploaded`
/// carry the integer encodings described on [`ChapterItem`] (the date in
/// seconds rather than milliseconds).
#[derive(Clone, Debug)]
pub struct Chapter {
    pub key: String,
    pub title: Option<String>,
    pub chapter_number: Option<i64>,
    pub date_uploaded: Option<i64>,
    pub url: Option<String>,
    pub scanlators: Option<Vec<String>>,
}

#[verifier::ext_equal]
pub ghost struct ChapterModel {
    pub key: Seq<char>,
    pub title: Option<Seq<char>>,
    pub chapter_number: Option<int>,
    pub date_uploaded: Option<int>,
    pub url: Option<Seq<char>>,
    pub scanlators: Option<Seq<Seq<char>>>,
}

impl View for Chapter {
    type V = ChapterModel;

    open spec fn view(&self) -> ChapterModel {
        ChapterModel {
            key: self.key@,
            title: self.title.deep_view(),
            chapter_number: match self.chapter_number {
                Some(n) => Some(n as int),
                None => None,
            },
            date_uploaded: match self.date_uploaded {
                Some(n) => Some(n as int),
                None => None,
            },
            url: self.url.deep_view(),
            scanlators: self.scanlators.deep_view(),
        }
    }
}

impl DeepView for Chapter {
    type V = ChapterModel;

    open spec fn deep_view(&self) -> ChapterModel {
        self.view()
    }
}

/// A manga as handed to the host.
#[derive(Clone, Debug)]
pub struct Manga {
    pub key: String,
    pub title: String,
    pub cover: Option<String>,
    pub url: Option<String>,
    pub status: MangaStatus,
    pub description: Option<String>,
    pub tags: Option<Vec<String>>,
    pub authors: Option<Vec<String>>,
    pub chapters: Option<Vec<Chapter>>,
    pub viewer: Viewer,
}

#[verifier::ext_equal]
pub ghost struct MangaModel {
    pub key: Seq<char>,
    pub title: Seq<char>,
    pub cover: Option<Seq<char>>,
    pub url: Option<Seq<char>>,
    pub status: MangaStatus,
    pub description: Option<Seq<char>>,
    pub tags: Option<Seq<Seq<char>>>,
    pub authors: Option<Seq<Seq<char>>>,
    pub chapters: Option<Seq<ChapterModel>>,
    pub viewer: Viewer,
}

impl View for Manga {
    type V = MangaModel;

    open spec fn view(&self) -> MangaModel {
        MangaModel {
            key: self.key@,
            title: self.title@,
            cover: self.cover.deep_view(),
            url: self.url.deep_view(),
            status: self.status,
            description: self.description.deep_view(),
            tags: self.tags.deep_view(),
            authors: self.authors.deep_view(),
            chapters: self.chapters.deep_view(),
            viewer: self.viewer,
        }
    }
}

impl DeepView for Manga {
    type V = MangaModel;

    open spec fn deep_view(&self) -> MangaModel {
        self.view()
    }
}

/// One page image of a chapter, with its URL fully qualified.
#[derive(Clone, Debug)]
pub struct Page {
    pub url: String,
}

impl View for Page {
    type V = Seq<char>;

    open spec fn view(&self) -> Seq<char> {
        self.url@
    }
}

impl DeepView for Page {
    type V = Seq<char>;

    open spec fn deep_view(&self) -> Seq<char> {
        self.view()
    }
}

/// One page of browse results for the host.
#[derive(Clone, Debug)]
pub struct MangaPageResult {
    pub entries: Vec<Manga>,
    pub has_next_page: bool,
}

#[verifier::ext_equal]
pub ghost struct MangaPageResultModel {
    pub entries: Seq<MangaModel>,
    pub has_next_page: bool,
}

impl View for MangaPageResult {
    type V = MangaPageResultModel;

    open spec fn view(&self) -> MangaPageResultModel {
        MangaPageResultModel {
            entries: self.entries.deep_view(),
            has_next_page: self.has_next_page,
        }
    }
}

/// A browse filter handed down by the host; the connector reads only sort
/// filters.
#[derive(Clone, Debug)]
pub enum FilterValue {
    Sort { id: String, index: i32, ascending: bool },
    Text { id: String, value: String },
}

#[verifier::ext_equal]
pub ghost enum FilterValueModel {
    Sort { id: Seq<char>, index: int, ascending: bool },
    Text { id: Seq<char>, value: Seq<char> },
}

impl View for FilterValue {
    type V = FilterValueModel;

    open spec fn view(&self) -> FilterValueModel {
        match self {
            FilterValue::Sort { id, index, ascending } => FilterValueModel::Sort {
                id: id@,
                index: *index as int,
                ascending: *ascending,
            },
            FilterValue::Text { id, value } => FilterValueModel::Text { id: id@, value: value@ },
        }
    }
}

impl DeepView for FilterValue {
    type V = FilterValueModel;

    open spec fn deep_view(&self) -> FilterValueModel {
        self.view()
    }
}

/// How a home-screen section presents its entries.
#[derive(Clone, Copy, Debug, PartialEq, Eq, Structural)]
pub enum HomeSectionKind {
    BigScroller,
    MangaList,
}

/// One section of the home screen.
#[derive(Clone, Debug)]
pub struct HomeSection {
    pub title: String,
    pub kind: HomeSectionKind,
    pub entries: Vec<Manga>,
    pub listing_id: Option<String>,
    pub listing_name: Option<String>,
}

#[verifier::ext_equal]
pub ghost struct HomeSectionModel {
    pub title: Seq<char>,
    pub kind: HomeSectionKind,
    pub entries: Seq<MangaModel>,
    pub listing_id: Option<Seq<char>>,
    pub listing_name: Option<Seq<char>>,
}

impl View for HomeSection {
    type V = HomeSectionModel;

    open spec fn view(&self) -> HomeSectionModel {
        HomeSectionModel {
            title: self.title@,
            kind: self.kind,
            entries: self.entries.deep_view(),
            listing_id: self.listing_id.deep_view(),
            listing_name: self.listing_name.deep_view(),
        }
    }
}

impl DeepView for HomeSection {
    type V = HomeSectionModel;

    open spec fn deep_view(&self) -> HomeSectionModel {
        self.view()
    }
}

/// What an external URL was resolved to.
#[derive(Clone, Debug)]
pub enum DeepLinkResult {
    Manga { key: String },
    Chapter { manga_key: String, key: String },
}

#[verifier::ext_equal]
pub ghost enum DeepLinkResultModel {
    Manga { key: Seq<char> },
    Chapter { manga_key: Seq<char>, key: Seq<char> },
}

impl View for DeepLinkResult {
    type V = DeepLinkResultModel;

    open spec fn view(&self) -> DeepLinkResultModel {
        match self {
            DeepLinkResult::Manga { key } => DeepLinkResultModel::Manga { key: key@ },
            DeepLinkResult::Chapter { manga_key, key } => DeepLinkResultModel::Chapter {
                manga_key: manga_key@,
                key: key@,
            },
        }
    }
}

impl DeepView for DeepLinkResult {
    type V = DeepLinkResultModel;

    open spec fn deep_view(&self) -> DeepLinkResultModel {
        self.view()
    }
}

} // verus!
