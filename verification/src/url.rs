//! URL resolver: normalizes the image/path fragments the API returns
//! (absolute, root-relative, `static/`-relative, or bare names) into fully
//! qualified URLs rooted at the site's base origin.
use crate::base_chars;
use crate::strutil::{is_prefix_of, starts_with_prefix};
use vstd::prelude::*;
use vstd::string::*;

verus! {

/// The normalized form of an image path, rule by rule and in order: an
/// absolute URL passes through; a `static/`-relative path is joined with the
/// base origin with exactly one separator; any other root-relative path is
/// prefixed with the base origin; a bare name is placed under `static/`.
pub open spec fn spec_resolve_image_url(p: Seq<char>) -> Seq<char> {
    if is_prefix_of("http"@, p) {
        p
    } else if is_prefix_of("/static/"@, p) || is_prefix_of("static/"@, p) {
        if is_prefix_of("/"@, p) {
            base_chars() + p
        } else {
            base_chars() + "/"@ + p
        }
    } else if is_prefix_of("/"@, p) {
        base_chars() + p
    } else {
        base_chars() + "/static/"@ + p
    }
}

/// Normalizes an image path into a fully qualified URL.
pub fn resolve_image_url(path: String) -> (r: String)
    ensures
        r@ == spec_resolve_image_url(path@),
{
    if starts_with_prefix(path.as_str(), "http") {
        path
    } else if starts_with_prefix(path.as_str(), "/static/") || starts_with_prefix(
        path.as_str(),
        "static/",
    ) {
        if starts_with_prefix(path.as_str(), "/") {
            let mut r = String::new();
            r.append("https://atsu.moe");
            r.append(path.as_str());
            assert(r@ =~= base_chars() + path@);
            r
        } else {
            let mut r = String::new();
            r.append("https://atsu.moe");
            r.append("/");
            r.append(path.as_str());
            assert(r@ =~= base_chars() + "/"@ + path@);
            r
        }
    } else if starts_with_prefix(path.as_str(), "/") {
        let mut r = String::new();
        r.append("https://atsu.moe");
        r.append(path.as_str());
        assert(r@ =~= base_chars() + path@);
        r
    } else {
        let mut r = String::new();
        r.append("https://atsu.moe");
        r.append("/static/");
        r.append(path.as_str());
        assert(r@ =~= base_chars() + "/static/"@ + path@);
        r
    }
}

/// Law: an absolute URL (one that already begins with the scheme prefix)
/// resolves to itself.
pub proof fn lemma_resolve_absolute(u: Seq<char>)
    requires
        is_prefix_of("http"@, u),
    ensures
        spec_resolve_image_url(u) == u,
{
}

/// Law: a root-relative path (one that starts with the separator, which no
/// absolute URL does) resolves to the base origin followed by the path
/// itself, so the result starts with the base origin and ends with the path.
pub proof fn lemma_resolve_root_relative(p: Seq<char>)
    requires
        p.len() > 0,
        p[0] == '/',
    ensures
        spec_resolve_image_url(p) == base_chars() + p,
        is_prefix_of(base_chars(), spec_resolve_image_url(p)),
        spec_resolve_image_url(p).skip(base_chars().len() as int) == p,
{
    reveal_strlit("/");
    reveal_strlit("http");
    assert(!is_prefix_of("http"@, p)) by {
        if is_prefix_of("http"@, p) {
            assert(p.subrange(0, 4)[0] == p[0]);
        }
    }
    assert(p.subrange(0, 1) =~= "/"@);
    assert(is_prefix_of("/"@, p));
    let r = base_chars() + p;
    assert(r.subrange(0, base_chars().len() as int) =~= base_chars());
    assert(r.skip(base_chars().len() as int) =~= p);
}

/// Law: every output of the resolver is a well-formed absolute URL — it
/// begins with the scheme prefix.
pub proof fn lemma_resolve_always_absolute(p: Seq<char>)
    ensures
        is_prefix_of("http"@, spec_resolve_image_url(p)),
{
    if !is_prefix_of("http"@, p) {
        reveal_strlit("http");
        reveal_strlit("https://atsu.moe");
        let r = spec_resolve_image_url(p);
        assert(r.subrange(0, 4) =~= "http"@);
    }
}

/// Law: resolving is idempotent; every output of the resolver is absolute,
/// so a second pass leaves it unchanged.
pub proof fn lemma_resolve_idempotent(p: Seq<char>)
    ensures
        spec_resolve_image_url(spec_resolve_image_url(p)) == spec_resolve_image_url(p),
{
    lemma_resolve_always_absolute(p);
}

} // verus!
