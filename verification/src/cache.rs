//! The caching policy of the static site.

use vstd::prelude::*;

use crate::text::{chars_of, has_char, has_suffix};

verus! {

pub open spec fn ends_with(s: Seq<char>, suffix: Seq<char>) -> bool {
    suffix.len() <= s.len() && s.subrange(s.len() - suffix.len(), s.len() as int) == suffix
}

/// Pages (`.html`), directories (trailing `/`) and extension-less paths change
/// with every build and must be revalidated; everything else (assets) may be
/// cached for a day.
pub open spec fn must_revalidate(path: Seq<char>) -> bool {
    ||| ends_with(path, ".html"@)
    ||| ends_with(path, "/"@)
    ||| !path.contains('.')
}

/// The `Cache-Control` header value for a response to a request for `path`.
pub open spec fn cache_control_for(path: Seq<char>) -> Seq<char> {
    if must_revalidate(path) {
        "no-cache"@
    } else {
        "public, max-age=86400"@
    }
}

/// Pages (paths ending in `.html`), directories (a trailing `/`) and paths
/// without any `.` are always revalidated; any other path (an asset with an
/// extension) is cached publicly for a day.
pub proof fn lemma_cache_control_cases(path: Seq<char>)
    ensures
        path.len() >= 5 && path.subrange(path.len() - 5, path.len() as int) == ".html"@
            ==> cache_control_for(path) == "no-cache"@,
        path.len() >= 1 && path.last() == '/' ==> cache_control_for(path) == "no-cache"@,
        !path.contains('.') ==> cache_control_for(path) == "no-cache"@,
        !(path.len() >= 5 && path.subrange(path.len() - 5, path.len() as int) == ".html"@) && !(
        path.len() >= 1 && path.last() == '/') && path.contains('.') ==> cache_control_for(path)
            == "public, max-age=86400"@,
{
    reveal_strlit(".html");
    reveal_strlit("/");
    if path.len() >= 1 && path.last() == '/' {
        assert(path.subrange(path.len() - 1, path.len() as int) =~= "/"@);
    }
    if ends_with(path, "/"@) {
        assert(path.subrange(path.len() - 1, path.len() as int)[0] == path.last());
    }
}

/// The `Cache-Control` value that the static site sets on the response to a
/// request for the URI path `path`.
pub fn cache_control_value(path: &str) -> (r: &'static str)
    ensures
        r@ == cache_control_for(path@),
        path@.len() >= 5 && path@.subrange(path@.len() - 5, path@.len() as int) == ".html"@
            ==> r@ == "no-cache"@,
        path@.len() >= 1 && path@.last() == '/' ==> r@ == "no-cache"@,
        !path@.contains('.') ==> r@ == "no-cache"@,
        !(path@.len() >= 5 && path@.subrange(path@.len() - 5, path@.len() as int) == ".html"@)
            && !(path@.len() >= 1 && path@.last() == '/') && path@.contains('.') ==> r@
            == "public, max-age=86400"@,
{
    proof {
        lemma_cache_control_cases(path@);
    }
    let cs = chars_of(path);
    let html = chars_of(".html");
    let slash = chars_of("/");
    if has_suffix(&cs, &html) || has_suffix(&cs, &slash) || !has_char(&cs, '.') {
        "no-cache"
    } else {
        "public, max-age=86400"
    }
}

} // verus!
