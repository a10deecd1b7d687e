//! The response cache.

use vstd::prelude::*;
use crate::text::str_eq;

verus! {

/// Clearing and inspecting the response cache.
pub enum CacheCommands {
    /// Clear the response cache.
    Clear {
        resource: Option<String>,
    },
    /// Show cache statistics.
    Stats,
}

/// Whether `needle` occurs in `hay` as a run of consecutive characters.
pub open spec fn is_infix(needle: Seq<char>, hay: Seq<char>) -> bool {
    exists|i: int|
        0 <= i && i + needle.len() <= hay.len() && #[trigger] hay.subrange(i, i + needle.len())
            == needle
}

/// Whether `needle` occurs in `hay`.
pub fn contains_infix(hay: &str, needle: &str) -> (r: bool)
    ensures
        r == is_infix(needle@, hay@),
{
    let hl = hay.unicode_len();
    let nl = needle.unicode_len();
    if nl > hl {
        return false;
    }
    let mut i: usize = 0;
    loop
        invariant
            hl == hay@.len(),
            nl == needle@.len(),
            nl <= hl,
            i <= hl - nl,
            forall|k: int| 0 <= k < i ==> #[trigger] hay@.subrange(k, k + nl) != needle@,
        ensures
            forall|k: int|
                0 <= k && k + nl <= hl ==> #[trigger] hay@.subrange(k, k + nl) != needle@,
        decreases hl - nl - i,
    {
        if str_eq(hay.substring_char(i, i + nl), needle) {
            return true;
        }
        if i == hl - nl {
            break;
        }
        i = i + 1;
    }
    proof {
        if is_infix(needle@, hay@) {
            let k = choose|k: int|
                0 <= k && k + needle@.len() <= hay@.len() && #[trigger] hay@.subrange(
                    k,
                    k + needle@.len(),
                ) == needle@;
            assert(hay@.subrange(k, k + nl) != needle@);
        }
    }
    false
}

/// What `str::to_lowercase` gives for `s` (Unicode lower case, independent of
/// locale).
pub uninterp spec fn lowercase(s: Seq<char>) -> Seq<char>;

/// `s` in lower case (`str::to_lowercase`); its result is named `lowercase`.
#[verifier::external_body]
fn to_lower(s: &str) -> (r: String)
    ensures
        r@ == lowercase(s@),
{
    s.to_lowercase()
}

/// Whether the cache entry `name` is removed by `cache clear`: every entry when no
/// resource is given, else the entries whose name holds the resource's name,
/// compared in lower case.
pub fn cache_entry_selected(name: &str, resource: &Option<String>) -> (r: bool)
    ensures
        r == match resource {
            None => true,
            Some(res) => is_infix(lowercase(res@), lowercase(name@)),
        },
{
    match resource {
        None => true,
        Some(res) => {
            let n = to_lower(name);
            let r = to_lower(res.as_str());
            contains_infix(n.as_str(), r.as_str())
        },
    }
}

} // verus!
