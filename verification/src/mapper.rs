//! Entity mapper: turns a search-index document or a detail-page record into
//! the host's `Manga` entity, including the total status-string translation
//! and the absence-versus-emptiness convention for entity lists.
use crate::base_chars;
use crate::models::{
    Entity, EntityModel, Manga, MangaModel, MangaPageDetail, MangaPageDetailModel, MangaStatus,
    SearchDocument, SearchDocumentModel, Viewer,
};
use crate::strutil::str_eq;
use crate::url::{resolve_image_url, spec_resolve_image_url};
use vstd::prelude::*;
use vstd::string::*;

verus! {

/// The string when present, the empty string otherwise.
pub open spec fn opt_or_empty(s: Option<Seq<char>>) -> Seq<char> {
    match s {
        Some(t) => t,
        None => Seq::empty(),
    }
}

/// The status a reported status string translates to. Total: every string
/// other than the four recognized ones, and a missing string, translates to
/// `Unknown` rather than failing.
pub open spec fn spec_status_from(s: Option<Seq<char>>) -> MangaStatus {
    match s {
        Some(t) => if t == "Ongoing"@ {
            MangaStatus::Ongoing
        } else if t == "Completed"@ {
            MangaStatus::Completed
        } else if t == "Hiatus"@ {
            MangaStatus::Hiatus
        } else if t == "Dropped"@ || t == "Cancelled"@ {
            MangaStatus::Cancelled
        } else {
            MangaStatus::Unknown
        },
        None => MangaStatus::Unknown,
    }
}

/// Translates a reported status string into the host's status enum.
pub fn status_from(s: &Option<String>) -> (r: MangaStatus)
    ensures
        r == spec_status_from(s.deep_view()),
{
    match s {
        Some(t) => {
            if str_eq(t.as_str(), "Ongoing") {
                MangaStatus::Ongoing
            } else if str_eq(t.as_str(), "Completed") {
                MangaStatus::Completed
            } else if str_eq(t.as_str(), "Hiatus") {
                MangaStatus::Hiatus
            } else if str_eq(t.as_str(), "Dropped") || str_eq(t.as_str(), "Cancelled") {
                MangaStatus::Cancelled
            } else {
                MangaStatus::Unknown
            }
        },
        None => MangaStatus::Unknown,
    }
}

/// Law: the status translation is total with `Unknown` as the default — any
/// reported string other than the four recognized ones maps to `Unknown`.
pub proof fn lemma_status_unrecognized_is_unknown(t: Seq<char>)
    requires
        t != "Ongoing"@,
        t != "Completed"@,
        t != "Hiatus"@,
        t != "Dropped"@,
        t != "Cancelled"@,
    ensures
        spec_status_from(Some(t)) == MangaStatus::Unknown,
{
}

/// The string when present, the empty string otherwise, as an owned value.
fn clone_or_empty(s: &Option<String>) -> (r: String)
    ensures
        r@ == opt_or_empty(s.deep_view()),
{
    match s {
        Some(t) => t.clone(),
        None => {
            let r = String::new();
            assert(r@ =~= opt_or_empty(None));
            r
        },
    }
}

/// The browse URL of the manga with the given id: `base/manga/{id}`.
pub open spec fn spec_manga_url(id: Seq<char>) -> Seq<char> {
    base_chars() + "/manga/"@ + id
}

/// Builds `base/manga/{id}`.
pub fn manga_url(id: &str) -> (r: String)
    ensures
        r@ == spec_manga_url(id@),
{
    let mut r = String::new();
    r.append("https://atsu.moe");
    r.append("/manga/");
    r.append(id);
    assert(r@ =~= spec_manga_url(id@));
    r
}

/// The names of the named entities of a list, in order; unnamed entries are
/// dropped.
pub open spec fn spec_entity_names(es: Seq<EntityModel>) -> Seq<Seq<char>>
    decreases es.len(),
{
    if es.len() == 0 {
        Seq::empty()
    } else {
        match es[0].name {
            Some(n) => seq![n] + spec_entity_names(es.drop_first()),
            None => spec_entity_names(es.drop_first()),
        }
    }
}

proof fn lemma_entity_names_snoc(es: Seq<EntityModel>, e: EntityModel)
    ensures
        spec_entity_names(es.push(e)) == spec_entity_names(es) + (match e.name {
            Some(n) => seq![n],
            None => Seq::<Seq<char>>::empty()
        }),
    decreases es.len(),
{
    let tail: Seq<Seq<char>> = (match e.name {
        Some(n) => seq![n],
        None => Seq::<Seq<char>>::empty()
    });
    if es.len() == 0 {
        assert(es.push(e)[0] == e);
        assert(es.push(e).drop_first() =~= Seq::<EntityModel>::empty());
        assert(spec_entity_names(Seq::<EntityModel>::empty()) == Seq::<Seq<char>>::empty());
        if e.name is Some {
            assert(spec_entity_names(es.push(e)) == seq![e.name->0] + Seq::<Seq<char>>::empty());
        } else {
            assert(spec_entity_names(es.push(e)) == Seq::<Seq<char>>::empty());
        }
        assert(spec_entity_names(es.push(e)) =~= spec_entity_names(es) + tail);
    } else {
        assert(es.push(e)[0] == es[0]);
        assert(es.push(e).drop_first() =~= es.drop_first().push(e));
        lemma_entity_names_snoc(es.drop_first(), e);
        if es[0].name is Some {
            assert(spec_entity_names(es.push(e)) == seq![es[0].name->0] + spec_entity_names(
                es.drop_first().push(e),
            ));
            assert(spec_entity_names(es) == seq![es[0].name->0] + spec_entity_names(
                es.drop_first(),
            ));
        }
        assert(spec_entity_names(es.push(e)) =~= spec_entity_names(es) + tail);
    }
}

/// Law: a list whose entries are all unnamed maps to zero names.
pub proof fn lemma_entity_names_all_unnamed(es: Seq<EntityModel>)
    requires
        forall|i: int| 0 <= i < es.len() ==> es[i].name is None,
    ensures
        spec_entity_names(es).len() == 0,
    decreases es.len(),
{
    if es.len() > 0 {
        lemma_entity_names_all_unnamed(es.drop_first());
    }
}

/// Projects the `name` field out of an entity list, dropping unnamed entries.
pub fn entity_names(es: &Vec<Entity>) -> (r: Vec<String>)
    ensures
        r.deep_view() == spec_entity_names(es.deep_view()),
{
    let mut r: Vec<String> = Vec::new();
    assert(r.deep_view() =~= spec_entity_names(es.deep_view().subrange(0, 0)));
    let n = es.len();
    let mut i: usize = 0;
    while i < n
        invariant
            i <= n,
            n == es.len(),
            r.deep_view() == spec_entity_names(es.deep_view().subrange(0, i as int)),
        decreases n - i,
    {
        match &es[i].name {
            Some(name) => {
                let ghost prev = r.deep_view();
                r.push(name.clone());
                assert(r.deep_view() =~= prev + seq![name@]);
            },
            None => {
            },
        }
        proof {
            assert(es.deep_view().subrange(0, i + 1) =~= es.deep_view().subrange(
                0,
                i as int,
            ).push(es.deep_view()[i as int]));
            lemma_entity_names_snoc(es.deep_view().subrange(0, i as int), es.deep_view()[i as int]);
            assert(es.deep_view()[i as int] == es[i as int]@);
        }
        i += 1;
    }
    assert(es.deep_view().subrange(0, n as int) =~= es.deep_view());
    r
}

/// A list for the host: `None` when there are no entries — the host
/// distinguishes absence from emptiness.
pub open spec fn spec_some_if_nonempty(s: Seq<Seq<char>>) -> Option<Seq<Seq<char>>> {
    if s.len() == 0 {
        None
    } else {
        Some(s)
    }
}

/// The entity list when present, the empty list otherwise.
pub open spec fn opt_entities_or_empty(s: Option<Seq<EntityModel>>) -> Seq<EntityModel> {
    match s {
        Some(t) => t,
        None => Seq::empty(),
    }
}

/// The `Manga` entity a search-index document maps to: absent strings default
/// to empty, the cover goes through the URL resolver, the browse URL is
/// rebuilt from the id, and the status string is translated.
pub open spec fn spec_manga_from_doc(d: SearchDocumentModel) -> MangaModel {
    MangaModel {
        key: opt_or_empty(d.id),
        title: opt_or_empty(d.title),
        cover: match d.poster {
            Some(p) => Some(spec_resolve_image_url(p)),
            None => None,
        },
        url: Some(spec_manga_url(opt_or_empty(d.id))),
        status: spec_status_from(d.status),
        description: d.synopsis,
        tags: d.tags,
        authors: d.authors,
        chapters: None,
        viewer: Viewer::Webtoon,
    }
}

/// Maps a search-index document into the host's `Manga` entity.
pub fn build_manga_from_doc(doc: &SearchDocument) -> (m: Manga)
    ensures
        m@ == spec_manga_from_doc(doc@),
{
    let key = clone_or_empty(&doc.id);
    let url = manga_url(key.as_str());
    let cover = match &doc.poster {
        Some(p) => Some(resolve_image_url(p.clone())),
        None => None,
    };
    let m = Manga {
        key,
        title: clone_or_empty(&doc.title),
        cover,
        url: Some(url),
        status: status_from(&doc.status),
        description: doc.synopsis.clone(),
        tags: doc.tags.clone(),
        authors: doc.authors.clone(),
        chapters: None,
        viewer: Viewer::Webtoon,
    };
    assert(m@ =~= spec_manga_from_doc(doc@));
    m
}

/// The `Manga` entity after the authoritative detail record is applied: the
/// identity key and any chapters already attached are kept; the metadata
/// fields are replaced, with the cover drawn from the nested poster asset and
/// the author and genre lists projected to their named entries (`None` when
/// no entry is named).
pub open spec fn spec_apply_detail(m: MangaModel, d: MangaPageDetailModel) -> MangaModel {
    MangaModel {
        key: m.key,
        title: opt_or_empty(d.title),
        cover: match d.poster {
            Some(Some(p)) => Some(spec_resolve_image_url(p)),
            _ => None,
        },
        url: Some(spec_manga_url(opt_or_empty(d.id))),
        status: spec_status_from(d.status),
        description: d.synopsis,
        tags: spec_some_if_nonempty(spec_entity_names(opt_entities_or_empty(d.genres))),
        authors: spec_some_if_nonempty(spec_entity_names(opt_entities_or_empty(d.authors))),
        chapters: m.chapters,
        viewer: m.viewer,
    }
}

fn names_or_none(es: &Option<Vec<Entity>>) -> (r: Option<Vec<String>>)
    ensures
        r.deep_view() == spec_some_if_nonempty(spec_entity_names(opt_entities_or_empty(es.deep_view()))),
{
    let names = match es {
        Some(list) => entity_names(list),
        None => {
            let empty: Vec<String> = Vec::new();
            assert(empty.deep_view() =~= spec_entity_names(
                opt_entities_or_empty(None),
            ));
            empty
        },
    };
    if names.len() == 0 {
        assert(names.deep_view().len() == 0);
        None
    } else {
        assert(names.deep_view().len() != 0);
        Some(names)
    }
}

/// Applies a detail record to a manga in place.
pub fn apply_detail(manga: &mut Manga, detail: &MangaPageDetail)
    ensures
        final(manga)@ == spec_apply_detail(old(manga)@, detail@),
{
    manga.title = clone_or_empty(&detail.title);
    manga.description = detail.synopsis.clone();
    manga.cover = match &detail.poster {
        Some(asset) => match &asset.image {
            Some(img) => Some(resolve_image_url(img.clone())),
            None => None,
        },
        None => None,
    };
    let id = clone_or_empty(&detail.id);
    manga.url = Some(manga_url(id.as_str()));
    manga.status = status_from(&detail.status);
    manga.authors = names_or_none(&detail.authors);
    manga.tags = names_or_none(&detail.genres);
    assert(manga@ =~= spec_apply_detail(old(manga)@, detail@));
}

/// Law: a detail record whose author list maps to zero named entries yields
/// absent authors (`None`), not an empty list.
pub proof fn lemma_authors_absent_when_unnamed(m: MangaModel, d: MangaPageDetailModel)
    requires
        forall|i: int|
            0 <= i < opt_entities_or_empty(d.authors).len() ==> opt_entities_or_empty(
                d.authors,
            )[i].name is None,
    ensures
        spec_apply_detail(m, d).authors is None,
{
    lemma_entity_names_all_unnamed(opt_entities_or_empty(d.authors));
}

} // verus!
