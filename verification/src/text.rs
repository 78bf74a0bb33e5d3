//! Text of advertised names: case folding and substring search.

use vstd::prelude::*;

verus! {

/// The lower-case form of `text` as `str::to_lowercase` gives it: by the
/// Unicode rules for lower case, the same for every locale.
pub uninterp spec fn lowercase(text: Seq<char>) -> Seq<char>;

/// `needle` stands in `haystack`, character by character, from position `at`.
pub open spec fn occurs_at(haystack: Seq<char>, needle: Seq<char>, at: int) -> bool {
    &&& 0 <= at
    &&& at + needle.len() <= haystack.len()
    &&& forall|k: int| 0 <= k < needle.len() ==> haystack[at + k] == needle[k]
}

/// `needle` stands somewhere in `haystack`. The empty text stands in every
/// text.
pub open spec fn has_substring(haystack: Seq<char>, needle: Seq<char>) -> bool {
    exists|at: int| occurs_at(haystack, needle, at)
}

/// Calls `str::to_lowercase`. Trusted: the result is the lower-case form of
/// the argument, which this crate only names and never computes itself.
#[verifier::external_body]
pub(crate) fn to_lowercase(text: &str) -> (lowered: String)
    ensures
        lowered@ == lowercase(text@),
{
    text.to_lowercase()
}

/// The characters of `text`, in order.
fn chars_of(text: &str) -> (chars: Vec<char>)
    ensures
        chars@ == text@,
{
    let mut chars: Vec<char> = Vec::new();
    for c in it: text.chars()
        invariant
            it.seq() == text@,
            chars@ == it.seq().take(it.index()),
    {
        chars.push(c);
    }
    chars
}

/// Whether `needle` stands in `haystack` from position `at`.
fn matches_at(haystack: &Vec<char>, needle: &Vec<char>, at: usize) -> (hit: bool)
    requires
        at + needle.len() <= haystack.len(),
    ensures
        hit == occurs_at(haystack@, needle@, at as int),
{
    let mut k: usize = 0;
    while k < needle.len()
        invariant
            k <= needle.len(),
            at + needle.len() <= haystack.len(),
            forall|j: int| 0 <= j < k ==> haystack@[at + j] == needle@[j],
        decreases needle.len() - k,
    {
        if haystack[at + k] != needle[k] {
            return false;
        }
        k += 1;
    }
    true
}

/// Whether `needle` stands somewhere in `haystack`.
pub fn contains_text(haystack: &str, needle: &str) -> (found: bool)
    ensures
        found == has_substring(haystack@, needle@),
{
    let hay = chars_of(haystack);
    let pin = chars_of(needle);
    if pin.len() > hay.len() {
        return false;
    }
    let last: usize = hay.len() - pin.len();
    let mut at: usize = 0;
    while at <= last
        invariant
            hay@ == haystack@,
            pin@ == needle@,
            at <= last + 1,
            last == hay.len() - pin.len(),
            pin.len() <= hay.len(),
            forall|p: int| 0 <= p < at ==> !occurs_at(hay@, pin@, p),
        decreases last + 1 - at,
    {
        if matches_at(&hay, &pin, at) {
            return true;
        }
        at += 1;
    }
    false
}

} // verus!
