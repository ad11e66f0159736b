//! Deep-link resolver: parses an external URL into a manga or chapter
//! reference. A link matching neither pattern resolves to no match, never to
//! an error.
use crate::models::{DeepLinkResult, DeepLinkResultModel};
use crate::strutil::{
    after_first, contains_seq, find_char_first, is_prefix_of, lemma_spec_find_correct, occurs_at,
    spec_after, spec_find, spec_up_to_char, starts_with_prefix, substr_to_string,
    up_to_char_string,
};
use vstd::prelude::*;
use vstd::string::*;

verus! {

/// The value of the first query parameter literally named `chapterId`, if
/// any. Parameters are separated by `&`, a name matches only at the start of
/// a parameter (at the start of the query string or right after a `&`), and
/// the value runs up to the following `&` or the end of the query string.
pub open spec fn spec_param_scan(q: Seq<char>, at_param_start: bool) -> Option<Seq<char>>
    decreases q.len(),
{
    if at_param_start && is_prefix_of("chapterId="@, q) {
        Some(spec_up_to_char(q.skip("chapterId="@.len() as int), '&'))
    } else if q.len() == 0 {
        None
    } else {
        spec_param_scan(q.drop_first(), q[0] == '&')
    }
}

/// The `chapterId` value of a whole query string.
pub open spec fn spec_chapter_param(q: Seq<char>) -> Option<Seq<char>> {
    spec_param_scan(q, true)
}

fn param_scan(q: &str, at_param_start: bool) -> (r: Option<String>)
    ensures
        r.deep_view() == spec_param_scan(q@, at_param_start),
    decreases q@.len(),
{
    let n = q.unicode_len();
    if at_param_start && starts_with_prefix(q, "chapterId=") {
        let plen = "chapterId=".unicode_len();
        let rest = q.substring_char(plen, n);
        assert(rest@ =~= q@.skip("chapterId="@.len() as int));
        Some(up_to_char_string(rest, '&'))
    } else if n == 0 {
        None
    } else {
        let c = q.get_char(0);
        let tail = q.substring_char(1, n);
        assert(tail@ =~= q@.drop_first());
        param_scan(tail, c == '&')
    }
}

/// What a deep link resolves to: the id after the first `/manga/` (up to the
/// next path separator) when it is nonempty; otherwise, from the text after
/// the first `/read/`, the manga id up to the query separator together with
/// the value of the query parameter named `chapterId`, when both are
/// nonempty; otherwise no match.
pub open spec fn spec_handle_deep_link(url: Seq<char>) -> Option<DeepLinkResultModel> {
    let manga_branch = spec_after(url, "/manga/"@);
    if manga_branch is Some && spec_up_to_char(manga_branch->0, '/').len() > 0 {
        Some(DeepLinkResultModel::Manga { key: spec_up_to_char(manga_branch->0, '/') })
    } else {
        match spec_after(url, "/read/"@) {
            Some(rest) => {
                let manga_key = spec_up_to_char(rest, '?');
                match spec_find(rest, seq!['?']) {
                    Some(qpos) => {
                        match spec_chapter_param(rest.skip(qpos + 1)) {
                            Some(value) => {
                                if manga_key.len() > 0 && value.len() > 0 {
                                    Some(
                                        DeepLinkResultModel::Chapter { manga_key, key: value },
                                    )
                                } else {
                                    None
                                }
                            },
                            None => None,
                        }
                    },
                    None => None,
                }
            },
            None => None,
        }
    }
}

/// Parses an external URL into a manga or chapter reference.
pub fn handle_deep_link(url: &str) -> (r: Option<DeepLinkResult>)
    ensures
        r.deep_view() == spec_handle_deep_link(url@),
{
    match after_first(url, "/manga/") {
        Some(rest) => {
            let id = up_to_char_string(rest.as_str(), '/');
            assert(rest@ == spec_after(url@, "/manga/"@)->0);
            if !id.as_str().is_empty() {
                let r = Some(DeepLinkResult::Manga { key: id });
                assert(r.deep_view() == spec_handle_deep_link(url@));
                return r;
            }
            assert(spec_up_to_char(spec_after(url@, "/manga/"@)->0, '/').len() == 0);
        },
        None => {
            assert(spec_after(url@, "/manga/"@) is None);
        },
    }
    let r = match after_first(url, "/read/") {
        Some(rest) => {
            assert(rest@ == spec_after(url@, "/read/"@)->0);
            let manga_key = up_to_char_string(rest.as_str(), '?');
            match find_char_first(rest.as_str(), '?') {
                Some(qpos) => {
                    proof {
                        lemma_spec_find_correct(rest@, seq!['?']);
                        assert(occurs_at(rest@, seq!['?'], qpos as int));
                    }
                    let n = rest.as_str().unicode_len();
                    let q = substr_to_string(rest.as_str(), qpos + 1, n);
                    assert(q@ =~= rest@.skip(qpos + 1));
                    match param_scan(q.as_str(), true) {
                        Some(value) => {
                            if !manga_key.as_str().is_empty() && !value.as_str().is_empty() {
                                Some(DeepLinkResult::Chapter { manga_key, key: value })
                            } else {
                                None
                            }
                        },
                        None => None,
                    }
                },
                None => None,
            }
        },
        None => None,
    };
    assert(r.deep_view() == spec_handle_deep_link(url@));
    r
}

/// Law: a link in which neither the `/manga/` nor the `/read/` segment
/// occurs resolves to no match.
pub proof fn lemma_no_pattern_no_match(url: Seq<char>)
    requires
        !contains_seq(url, "/manga/"@),
        !contains_seq(url, "/read/"@),
    ensures
        spec_handle_deep_link(url) == None::<DeepLinkResultModel>,
{
    lemma_spec_find_correct(url, "/manga/"@);
    if spec_find(url, "/manga/"@) is Some {
        assert(occurs_at(url, "/manga/"@, spec_find(url, "/manga/"@)->0));
        assert(contains_seq(url, "/manga/"@));
    }
    lemma_spec_find_correct(url, "/read/"@);
    if spec_find(url, "/read/"@) is Some {
        assert(occurs_at(url, "/read/"@, spec_find(url, "/read/"@)->0));
        assert(contains_seq(url, "/read/"@));
    }
}

} // verus!
