//! Chapter reconciler: merges the raw chapter list with the scanlator
//! id-to-name side table and produces the host's chapter sequence, ordered by
//! chapter number descending with ties kept in original API order.
use crate::base_chars;
use crate::models::{
    Chapter, ChapterItem, ChapterItemModel, ChapterModel, Scanlator, ScanlatorModel,
};
use crate::strutil::str_eq;
use vstd::prelude::*;
use vstd::string::*;

verus! {

// ---------------------------------------------------------------------------
// Scanlator side table
// ---------------------------------------------------------------------------
/// Immutable scanlator id-to-display-name table, built once per
/// reconciliation pass from the detail payload's side list and passed by
/// reference into the per-chapter mapping step.
#[derive(Clone, Debug)]
pub struct ScanlatorTable {
    pub entries: Vec<Scanlator>,
}

/// The name the table holds for `id`: that of the last row carrying this id
/// (a later row overrides an earlier one), or nothing when no row does.
pub open spec fn spec_lookup(rows: Seq<ScanlatorModel>, id: Seq<char>) -> Option<Seq<char>>
    decreases rows.len(),
{
    if rows.len() == 0 {
        None
    } else if rows.last().id == id {
        Some(rows.last().name)
    } else {
        spec_lookup(rows.drop_last(), id)
    }
}

impl View for ScanlatorTable {
    type V = Seq<ScanlatorModel>;

    open spec fn view(&self) -> Seq<ScanlatorModel> {
        self.entries.deep_view()
    }
}

impl ScanlatorTable {
    /// Builds the table from the detail payload's scanlator list; a missing
    /// list gives the empty table.
    pub fn from_detail(scanlators: &Option<Vec<Scanlator>>) -> (t: ScanlatorTable)
        ensures
            t@ == match scanlators.deep_view() {
                Some(rows) => rows,
                None => Seq::<ScanlatorModel>::empty(),
            },
    {
        let mut entries: Vec<Scanlator> = Vec::new();
        match scanlators {
            Some(list) => {
                let n = list.len();
                let mut i: usize = 0;
                assert(entries.deep_view() =~= list.deep_view().subrange(0, 0));
                while i < n
                    invariant
                        i <= n,
                        n == list.len(),
                        entries.deep_view() == list.deep_view().subrange(0, i as int),
                    decreases n - i,
                {
                    let ghost prev = entries.deep_view();
                    entries.push(
                        Scanlator { id: list[i].id.clone(), name: list[i].name.clone() },
                    );
                    assert(entries.deep_view() =~= prev.push(list[i as int]@));
                    assert(list.deep_view().subrange(0, i + 1) =~= list.deep_view().subrange(
                        0,
                        i as int,
                    ).push(list.deep_view()[i as int]));
                    i += 1;
                }
                assert(list.deep_view().subrange(0, n as int) =~= list.deep_view());
            },
            None => {
                assert(entries.deep_view() =~= Seq::<ScanlatorModel>::empty());
            },
        }
        ScanlatorTable { entries }
    }

    /// Looks up the display name for a scanlator id.
    pub fn lookup(&self, id: &str) -> (r: Option<String>)
        ensures
            r.deep_view() == spec_lookup(self@, id@),
    {
        let n = self.entries.len();
        assert(self@.subrange(0, n as int) =~= self@);
        let mut i: usize = n;
        while i > 0
            invariant
                i <= n,
                n == self.entries.len(),
                spec_lookup(self@, id@) == spec_lookup(self@.subrange(0, i as int), id@),
            decreases i,
        {
            i -= 1;
            let ghost t = self@.subrange(0, i + 1);
            assert(t.last() == self@[i as int]);
            if str_eq(self.entries[i].id.as_str(), id) {
                return Some(self.entries[i].name.clone());
            }
            assert(t.drop_last() =~= self@.subrange(0, i as int));
        }
        assert(self@.subrange(0, 0) =~= Seq::<ScanlatorModel>::empty());
        None
    }
}

// ---------------------------------------------------------------------------
// Per-chapter mapping
// ---------------------------------------------------------------------------
/// The read URL of a chapter: `base/read/{mangaKey}?chapterId={id}`.
pub open spec fn spec_chapter_url(manga_key: Seq<char>, chapter_id: Seq<char>) -> Seq<char> {
    base_chars() + "/read/"@ + manga_key + "?chapterId="@ + chapter_id
}

/// Builds `base/read/{mangaKey}?chapterId={id}`.
pub fn chapter_url(manga_key: &str, chapter_id: &str) -> (r: String)
    ensures
        r@ == spec_chapter_url(manga_key@, chapter_id@),
{
    let mut r = String::new();
    r.append("https://atsu.moe");
    r.append("/read/");
    r.append(manga_key);
    r.append("?chapterId=");
    r.append(chapter_id);
    assert(r@ =~= spec_chapter_url(manga_key@, chapter_id@));
    r
}

/// Milliseconds to seconds, truncating toward zero.
pub open spec fn spec_ms_to_s(ms: int) -> int {
    if ms >= 0 {
        ms / 1000
    } else {
        -((-ms) / 1000)
    }
}

/// Converts a millisecond epoch stamp to seconds.
pub fn ms_to_s(ms: i64) -> (r: i64)
    ensures
        r as int == spec_ms_to_s(ms as int),
{
    if ms >= 0 {
        ((ms as u64) / 1000) as i64
    } else {
        let mag: u64 = (-(ms as i128)) as u64;
        let q: u64 = mag / 1000;
        -(q as i64)
    }
}

/// The `Chapter` a raw item maps to: key and title pass through, the date
/// drops from milliseconds to seconds, the read URL is built from the manga
/// key, and the scanlator list holds the one name the side table gives for
/// the item's scanlation id — absent (not empty) when the item carries no id
/// or the table does not know it.
pub open spec fn spec_build_chapter(
    it: ChapterItemModel,
    manga_key: Seq<char>,
    table: Seq<ScanlatorModel>,
) -> ChapterModel {
    ChapterModel {
        key: it.id,
        title: it.title,
        chapter_number: Some(it.number),
        date_uploaded: Some(spec_ms_to_s(it.created_at)),
        url: Some(spec_chapter_url(manga_key, it.id)),
        scanlators: match it.scanlation_manga_id {
            Some(sid) => match spec_lookup(table, sid) {
                Some(name) => Some(seq![name]),
                None => None,
            },
            None => None,
        },
    }
}

/// Maps one raw chapter item to the host's `Chapter` entity.
pub fn build_chapter(item: &ChapterItem, manga_key: &str, table: &ScanlatorTable) -> (c: Chapter)
    ensures
        c@ == spec_build_chapter(item@, manga_key@, table@),
{
    let scanlators: Option<Vec<String>> = match &item.scanlation_manga_id {
        Some(sid) => match table.lookup(sid.as_str()) {
            Some(name) => {
                let ghost n = name@;
                let mut v: Vec<String> = Vec::new();
                v.push(name);
                assert(v.deep_view() =~= seq![n]);
                Some(v)
            },
            None => None,
        },
        None => None,
    };
    let c = Chapter {
        key: item.id.clone(),
        title: item.title.clone(),
        chapter_number: Some(item.number),
        date_uploaded: Some(ms_to_s(item.created_at)),
        url: Some(chapter_url(manga_key, item.id.as_str())),
        scanlators,
    };
    assert(c@ =~= spec_build_chapter(item@, manga_key@, table@));
    c
}

/// Law: a chapter item that carries no scanlation id, or one the side table
/// does not know, maps to absent scanlators — never to an empty list.
pub proof fn lemma_unknown_scanlator_absent(
    it: ChapterItemModel,
    manga_key: Seq<char>,
    table: Seq<ScanlatorModel>,
)
    requires
        match it.scanlation_manga_id {
            Some(sid) => spec_lookup(table, sid) is None,
            None => true,
        },
    ensures
        spec_build_chapter(it, manga_key, table).scanlators is None,
{
}

// ---------------------------------------------------------------------------
// Stable descending sort
// ---------------------------------------------------------------------------
/// The ordering key of a chapter: its number encoding, `0` when absent (the
/// default affects ordering only, never the stored value).
pub open spec fn sort_key(c: ChapterModel) -> int {
    match c.chapter_number {
        Some(n) => n,
        None => 0,
    }
}

/// Keys never increase along the sequence.
pub open spec fn sorted_desc(s: Seq<ChapterModel>) -> bool {
    forall|i: int, j: int| 0 <= i < j < s.len() ==> sort_key(s[i]) >= sort_key(s[j])
}

/// `x` placed in front of the first element of `s` whose key is not larger —
/// after every earlier element with a strictly larger key.
pub open spec fn spec_insert_desc(x: ChapterModel, s: Seq<ChapterModel>) -> Seq<ChapterModel>
    decreases s.len(),
{
    if s.len() == 0 {
        seq![x]
    } else if sort_key(x) >= sort_key(s[0]) {
        seq![x] + s
    } else {
        seq![s[0]] + spec_insert_desc(x, s.drop_first())
    }
}

/// Stable descending sort by key: elements are folded in back to front, each
/// inserted in front of the later elements whose keys are not larger.
pub open spec fn spec_sort_desc(s: Seq<ChapterModel>) -> Seq<ChapterModel>
    decreases s.len(),
{
    if s.len() == 0 {
        Seq::empty()
    } else {
        spec_insert_desc(s[0], spec_sort_desc(s.drop_first()))
    }
}

/// Inserting at the boundary position — every earlier key strictly larger,
/// the next key (if any) not larger — is what `spec_insert_desc` does.
proof fn lemma_insert_desc_at(x: ChapterModel, s: Seq<ChapterModel>, j: int)
    requires
        0 <= j <= s.len(),
        forall|k: int| 0 <= k < j ==> sort_key(s[k]) > sort_key(x),
        j < s.len() ==> sort_key(x) >= sort_key(s[j]),
    ensures
        spec_insert_desc(x, s) == s.insert(j, x),
    decreases s.len(),
{
    if s.len() == 0 {
        assert(s.insert(0, x) =~= seq![x]);
    } else if sort_key(x) >= sort_key(s[0]) {
        assert(j == 0) by {
            if j > 0 {
                assert(sort_key(s[0]) > sort_key(x));
            }
        }
        assert(s.insert(0, x) =~= seq![x] + s);
    } else {
        assert(j > 0);
        assert(forall|k: int| 0 <= k < j - 1 ==> sort_key(s.drop_first()[k]) > sort_key(x)) by {
            assert(forall|k: int| 0 <= k < j - 1 ==> s.drop_first()[k] == s[k + 1]);
        }
        assert(j - 1 < s.drop_first().len() ==> sort_key(x) >= sort_key(s.drop_first()[j - 1]));
        lemma_insert_desc_at(x, s.drop_first(), j - 1);
        assert(s.insert(j, x) =~= seq![s[0]] + s.drop_first().insert(j - 1, x));
    }
}

/// Inserting keeps the multiset of chapters, adding the new one.
proof fn lemma_insert_desc_multiset(x: ChapterModel, s: Seq<ChapterModel>, j: int)
    requires
        0 <= j <= s.len(),
        spec_insert_desc(x, s) == s.insert(j, x),
    ensures
        spec_insert_desc(x, s).to_multiset() == s.to_multiset().insert(x),
        spec_insert_desc(x, s).len() == s.len() + 1,
{
    broadcast use vstd::seq_lib::to_multiset_insert;

    assert(s.insert(j, x).to_multiset() == s.to_multiset().insert(x));
}

/// Inserting into a descending list at the boundary keeps it descending.
proof fn lemma_insert_desc_sorted(x: ChapterModel, s: Seq<ChapterModel>, j: int)
    requires
        sorted_desc(s),
        0 <= j <= s.len(),
        forall|k: int| 0 <= k < j ==> sort_key(s[k]) > sort_key(x),
        j < s.len() ==> sort_key(x) >= sort_key(s[j]),
        spec_insert_desc(x, s) == s.insert(j, x),
    ensures
        sorted_desc(spec_insert_desc(x, s)),
{
    let r = s.insert(j, x);
    s.insert_ensures(j, x);
    assert forall|a: int, b: int| 0 <= a < b < r.len() implies sort_key(r[a]) >= sort_key(
        r[b],
    ) by {
        if a < j {
            assert(r[a] == s[a]);
        } else if a == j {
            assert(r[a] == x);
        } else {
            assert(r[a] == s[a - 1]);
        }
        if b < j {
            assert(r[b] == s[b]);
        } else if b == j {
            assert(r[b] == x);
        } else {
            assert(r[b] == s[b - 1]);
        }
    }
}

proof fn lemma_filter_single(x: ChapterModel, pred: spec_fn(ChapterModel) -> bool)
    ensures
        seq![x].filter(pred) == (if pred(x) {
            seq![x]
        } else {
            Seq::<ChapterModel>::empty()
        }),
{
    reveal(Seq::filter);
    let one = seq![x];
    assert(one.last() == x);
    assert(one.drop_last() =~= Seq::<ChapterModel>::empty());
    assert(Seq::<ChapterModel>::empty().filter(pred) == Seq::<ChapterModel>::empty());
    if pred(x) {
        assert(one.filter(pred) =~= seq![x]);
    } else {
        assert(one.filter(pred) =~= Seq::<ChapterModel>::empty());
    }
}

proof fn lemma_filter_all_false(s: Seq<ChapterModel>, pred: spec_fn(ChapterModel) -> bool)
    requires
        forall|i: int| 0 <= i < s.len() ==> !pred(s[i]),
    ensures
        s.filter(pred) == Seq::<ChapterModel>::empty(),
    decreases s.len(),
{
    reveal(Seq::filter);
    if s.len() > 0 {
        assert(!pred(s.last()));
        lemma_filter_all_false(s.drop_last(), pred);
    } else {
        assert(s =~= Seq::<ChapterModel>::empty());
    }
}

/// Inserting at the boundary keeps, for every key, the subsequence of
/// chapters with that key — the new chapter, if it has the key, lands in
/// front of them all.
proof fn lemma_insert_desc_filter(x: ChapterModel, s: Seq<ChapterModel>, j: int, key: int)
    requires
        0 <= j <= s.len(),
        forall|k: int| 0 <= k < j ==> sort_key(s[k]) > sort_key(x),
        spec_insert_desc(x, s) == s.insert(j, x),
    ensures
        spec_insert_desc(x, s).filter(|c: ChapterModel| sort_key(c) == key) == (if sort_key(x)
            == key {
            seq![x] + s.filter(|c: ChapterModel| sort_key(c) == key)
        } else {
            s.filter(|c: ChapterModel| sort_key(c) == key)
        }),
{
    let pred = (|c: ChapterModel| sort_key(c) == key);
    let pre = s.subrange(0, j);
    let suf = s.subrange(j, s.len() as int);
    let one = seq![x];
    assert(s.insert(j, x) =~= pre + one + suf);
    Seq::filter_distributes_over_add(pre + one, suf, pred);
    Seq::filter_distributes_over_add(pre, one, pred);
    assert(s =~= pre + suf);
    Seq::filter_distributes_over_add(pre, suf, pred);
    lemma_filter_single(x, pred);
    if sort_key(x) == key {
        // no earlier element carries this key: their keys are strictly larger
        lemma_filter_all_false(pre, pred);
        assert(spec_insert_desc(x, s).filter(pred) =~= seq![x] + s.filter(pred));
    } else {
        assert(spec_insert_desc(x, s).filter(pred) =~= s.filter(pred));
    }
}

/// The boundary position `spec_insert_desc` inserts at.
pub open spec fn spec_insert_pos(x: ChapterModel, s: Seq<ChapterModel>) -> int
    decreases s.len(),
{
    if s.len() == 0 {
        0
    } else if sort_key(x) >= sort_key(s[0]) {
        0
    } else {
        1 + spec_insert_pos(x, s.drop_first())
    }
}

proof fn lemma_insert_pos_props(x: ChapterModel, s: Seq<ChapterModel>)
    ensures
        0 <= spec_insert_pos(x, s) <= s.len(),
        forall|k: int| 0 <= k < spec_insert_pos(x, s) ==> sort_key(s[k]) > sort_key(x),
        spec_insert_pos(x, s) < s.len() ==> sort_key(x) >= sort_key(
            s[spec_insert_pos(x, s)],
        ),
        spec_insert_desc(x, s) == s.insert(spec_insert_pos(x, s), x),
    decreases s.len(),
{
    if s.len() == 0 || sort_key(x) >= sort_key(s[0]) {
        lemma_insert_desc_at(x, s, 0);
    } else {
        lemma_insert_pos_props(x, s.drop_first());
        let j = spec_insert_pos(x, s);
        assert(forall|k: int| 1 <= k < j ==> s[k] == s.drop_first()[k - 1]);
        lemma_insert_desc_at(x, s, j);
    }
}

/// Law: the sorted list is ordered by key descending.
pub proof fn lemma_sort_desc_sorted(s: Seq<ChapterModel>)
    ensures
        sorted_desc(spec_sort_desc(s)),
    decreases s.len(),
{
    if s.len() > 0 {
        lemma_sort_desc_sorted(s.drop_first());
        let rest = spec_sort_desc(s.drop_first());
        lemma_insert_pos_props(s[0], rest);
        lemma_insert_desc_sorted(s[0], rest, spec_insert_pos(s[0], rest));
    }
}

/// Law: sorting permutes the chapters — same multiset, same length.
pub proof fn lemma_sort_desc_permutes(s: Seq<ChapterModel>)
    ensures
        spec_sort_desc(s).to_multiset() == s.to_multiset(),
        spec_sort_desc(s).len() == s.len(),
    decreases s.len(),
{
    broadcast use vstd::seq_lib::to_multiset_insert;
    broadcast use vstd::seq_lib::to_multiset_len;

    if s.len() == 0 {
        assert(spec_sort_desc(s) =~= s);
    } else {
        lemma_sort_desc_permutes(s.drop_first());
        let rest = spec_sort_desc(s.drop_first());
        lemma_insert_pos_props(s[0], rest);
        lemma_insert_desc_multiset(s[0], rest, spec_insert_pos(s[0], rest));
        assert(s =~= s.drop_first().insert(0, s[0]));
        assert(s.to_multiset() == s.drop_first().to_multiset().insert(s[0]));
    }
}

/// The ordering key, as executable code.
fn chapter_key(c: &Chapter) -> (k: i64)
    ensures
        k as int == sort_key(c@),
{
    match c.chapter_number {
        Some(n) => n,
        None => 0,
    }
}

fn find_insert_pos(v: &Vec<Chapter>, kx: i64) -> (j: usize)
    ensures
        j <= v.len(),
        forall|k: int| 0 <= k < j ==> sort_key(v.deep_view()[k]) > kx as int,
        j < v.len() ==> kx as int >= sort_key(v.deep_view()[j as int]),
{
    let n = v.len();
    let mut j: usize = 0;
    while j < n
        invariant
            j <= n,
            n == v.len(),
            forall|k: int| 0 <= k < j ==> sort_key(v.deep_view()[k]) > kx as int,
        decreases n - j,
    {
        let kj = chapter_key(&v[j]);
        assert(v.deep_view()[j as int] == v@[j as int]@);
        if kx >= kj {
            return j;
        }
        j += 1;
    }
    j
}

/// Inserts a chapter in front of the first element whose key is not larger.
fn insert_sorted(v: &mut Vec<Chapter>, x: Chapter)
    ensures
        final(v).deep_view() == spec_insert_desc(x@, old(v).deep_view()),
{
    let kx = chapter_key(&x);
    let j = find_insert_pos(v, kx);
    proof {
        lemma_insert_desc_at(x@, v.deep_view(), j as int);
    }
    let ghost prev = v.deep_view();
    v.insert(j, x);
    assert(v.deep_view() =~= prev.insert(j as int, x@));
}

/// The chapters the raw items map to, in API order.
pub open spec fn spec_mapped(
    items: Seq<ChapterItemModel>,
    table: Seq<ScanlatorModel>,
    manga_key: Seq<char>,
) -> Seq<ChapterModel> {
    items.map_values(|it: ChapterItemModel| spec_build_chapter(it, manga_key, table))
}

/// The reconciled chapter list: each raw item mapped through the scanlator
/// table, then stably sorted by number descending.
pub open spec fn spec_reconcile(
    items: Seq<ChapterItemModel>,
    table: Seq<ScanlatorModel>,
    manga_key: Seq<char>,
) -> Seq<ChapterModel> {
    spec_sort_desc(spec_mapped(items, table, manga_key))
}

/// Merges the chapter list with the scanlator table and produces the host's
/// ordered chapter sequence. An empty list gives an empty output.
pub fn reconcile(items: &Vec<ChapterItem>, table: &ScanlatorTable, manga_key: &str) -> (r: Vec<
    Chapter,
>)
    ensures
        r.deep_view() == spec_reconcile(items.deep_view(), table@, manga_key@),
{
    let ghost f = |it: ChapterItemModel| spec_build_chapter(it, manga_key@, table@);
    let n = items.len();
    let mut r: Vec<Chapter> = Vec::new();
    proof {
        assert(items.deep_view().skip(n as int).map_values(f) =~= Seq::<ChapterModel>::empty());
        assert(r.deep_view() =~= spec_sort_desc(
            items.deep_view().skip(n as int).map_values(f),
        ));
    }
    let mut i: usize = n;
    while i > 0
        invariant
            i <= n,
            n == items.len(),
            f == (|it: ChapterItemModel| spec_build_chapter(it, manga_key@, table@)),
            r.deep_view() == spec_sort_desc(items.deep_view().skip(i as int).map_values(f)),
        decreases i,
    {
        i -= 1;
        let c = build_chapter(&items[i], manga_key, table);
        insert_sorted(&mut r, c);
        proof {
            let dv = items.deep_view();
            let m = dv.skip(i as int).map_values(f);
            assert(dv.skip(i as int)[0] == dv[i as int]);
            assert(dv[i as int] == items[i as int]@);
            assert(m[0] == c@);
            assert(m.drop_first() =~= dv.skip(i + 1).map_values(f));
            assert(spec_sort_desc(m) == spec_insert_desc(
                c@,
                spec_sort_desc(dv.skip(i + 1).map_values(f)),
            ));
        }
    }
    proof {
        assert(items.deep_view().skip(0) =~= items.deep_view());
    }
    r
}

/// Law: the reconciled list is ordered by chapter number descending, is a
/// permutation of the per-item mapping (so it has one chapter per raw item,
/// and an empty list reconciles to an empty output), and is stable — for
/// every key, the chapters carrying that key keep their input order.
pub proof fn lemma_reconcile_properties(
    items: Seq<ChapterItemModel>,
    table: Seq<ScanlatorModel>,
    manga_key: Seq<char>,
    key: int,
)
    ensures
        sorted_desc(spec_reconcile(items, table, manga_key)),
        spec_reconcile(items, table, manga_key).to_multiset() == spec_mapped(
            items,
            table,
            manga_key,
        ).to_multiset(),
        spec_reconcile(items, table, manga_key).len() == items.len(),
        spec_reconcile(items, table, manga_key).filter(|c: ChapterModel| sort_key(c) == key)
            == spec_mapped(items, table, manga_key).filter(
            |c: ChapterModel| sort_key(c) == key,
        ),
{
    let m = spec_mapped(items, table, manga_key);
    lemma_sort_desc_sorted(m);
    lemma_sort_desc_permutes(m);
    lemma_sort_desc_stable(m, key);
}

/// Law: the sort is stable — for every key, the chapters carrying that key
/// appear in the output in exactly their input order.
pub proof fn lemma_sort_desc_stable(s: Seq<ChapterModel>, key: int)
    ensures
        spec_sort_desc(s).filter(|c: ChapterModel| sort_key(c) == key) == s.filter(
            |c: ChapterModel| sort_key(c) == key,
        ),
    decreases s.len(),
{
    let pred = (|c: ChapterModel| sort_key(c) == key);
    if s.len() == 0 {
        reveal(Seq::filter);
        assert(spec_sort_desc(s) =~= s);
    } else {
        lemma_sort_desc_stable(s.drop_first(), key);
        let rest = spec_sort_desc(s.drop_first());
        lemma_insert_pos_props(s[0], rest);
        lemma_insert_desc_filter(s[0], rest, spec_insert_pos(s[0], rest), key);
        assert(s =~= seq![s[0]] + s.drop_first());
        Seq::filter_distributes_over_add(seq![s[0]], s.drop_first(), pred);
        lemma_filter_single(s[0], pred);
    }
}

} // verus!
