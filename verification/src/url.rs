//! The default scheme of a request target.
//!
//! A target that names no scheme is taken to mean plain `http`. Only the two
//! prefixes `http://` and `https://` count as a scheme; the match is exact
//! and case-sensitive, and nothing else about the target is examined.

use vstd::prelude::*;
use vstd::string::StringExecFns;
use crate::text::begins_with;

verus! {

/// Whether `target` already starts with `http://` or `https://`.
pub open spec fn has_scheme(target: Seq<char>) -> bool {
    "http://"@.is_prefix_of(target) || "https://"@.is_prefix_of(target)
}

/// The target a request is actually sent to: `target` itself where it names
/// a scheme, else `target` behind `http://`.
pub open spec fn effective_target(target: Seq<char>) -> Seq<char> {
    if has_scheme(target) {
        target
    } else {
        "http://"@ + target
    }
}

/// Tells whether `target` names a scheme.
pub fn names_scheme(target: &str) -> (named: bool)
    ensures
        named == has_scheme(target@),
{
    begins_with(target, "http://") || begins_with(target, "https://")
}

/// Gives `target` the default scheme where it names none. The empty target
/// is no exception: it becomes `http://`.
pub fn with_default_scheme(target: &str) -> (effective: String)
    ensures
        effective@ == effective_target(target@),
{
    if names_scheme(target) {
        String::from_str(target)
    } else {
        String::from_str("http://").concat(target)
    }
}

/// Every effective target names a scheme.
pub proof fn lemma_effective_target_has_scheme(target: Seq<char>)
    ensures
        has_scheme(effective_target(target)),
{
    if !has_scheme(target) {
        let prefix = "http://"@;
        assert((prefix + target).subrange(0, prefix.len() as int) =~= prefix);
    }
}

/// Giving the default scheme twice is the same as giving it once.
pub proof fn lemma_effective_target_idempotent(target: Seq<char>)
    ensures
        effective_target(effective_target(target)) == effective_target(target),
{
    lemma_effective_target_has_scheme(target);
}

/// A target that starts with `https://` is left as it is.
pub proof fn lemma_https_target_unchanged(rest: Seq<char>)
    ensures
        effective_target("https://"@ + rest) == "https://"@ + rest,
{
    let prefix = "https://"@;
    assert((prefix + rest).subrange(0, prefix.len() as int) =~= prefix);
}

/// A target that starts with `http://` is left as it is.
pub proof fn lemma_http_target_unchanged(rest: Seq<char>)
    ensures
        effective_target("http://"@ + rest) == "http://"@ + rest,
{
    let prefix = "http://"@;
    assert((prefix + rest).subrange(0, prefix.len() as int) =~= prefix);
}

} // verus!
