//! Intent classification: normalizing free-text classifier output to one of a
//! closed set of intent labels. Any output containing the substring "search"
//! (ignoring ASCII case) means the user needs retrieval; everything else is
//! ordinary chat. The lenient substring match is deliberate: classifier output
//! is not guaranteed to be an exact token.

use vstd::prelude::*;
use vstd::string::*;

verus! {

/// The closed set of intents a message can be classified into.
#[derive(Clone, Copy, Debug, PartialEq, Eq, Structural)]
pub enum IntentLabel {
    Search,
    Chat,
}

/// The six characters of "search" appear in `s` starting at position `i`,
/// each in either ASCII case.
pub open spec fn search_at(s: Seq<char>, i: int) -> bool {
    &&& 0 <= i
    &&& i + 6 <= s.len()
    &&& (s[i] == 's' || s[i] == 'S')
    &&& (s[i + 1] == 'e' || s[i + 1] == 'E')
    &&& (s[i + 2] == 'a' || s[i + 2] == 'A')
    &&& (s[i + 3] == 'r' || s[i + 3] == 'R')
    &&& (s[i + 4] == 'c' || s[i + 4] == 'C')
    &&& (s[i + 5] == 'h' || s[i + 5] == 'H')
}

/// `s` contains the substring "search", ignoring ASCII case.
pub open spec fn mentions_search(s: Seq<char>) -> bool {
    exists|i: int| search_at(s, i)
}

/// The label a classifier output normalizes to.
pub open spec fn intent_of(s: Seq<char>) -> IntentLabel {
    if mentions_search(s) {
        IntentLabel::Search
    } else {
        IntentLabel::Chat
    }
}

/// Whether "search" occurs at position `i` of `output`, ignoring ASCII case.
fn matches_search_at(output: &str, i: usize, n: usize) -> (r: bool)
    requires
        n == output@.len(),
        i + 6 <= n,
    ensures
        r == search_at(output@, i as int),
{
    let c0 = output.get_char(i);
    let c1 = output.get_char(i + 1);
    let c2 = output.get_char(i + 2);
    let c3 = output.get_char(i + 3);
    let c4 = output.get_char(i + 4);
    let c5 = output.get_char(i + 5);
    (c0 == 's' || c0 == 'S') && (c1 == 'e' || c1 == 'E') && (c2 == 'a' || c2 == 'A') && (c3 == 'r'
        || c3 == 'R') && (c4 == 'c' || c4 == 'C') && (c5 == 'h' || c5 == 'H')
}

/// Normalize raw classifier output to an `IntentLabel`: any output containing
/// "search" (ignoring ASCII case) maps to `Search`, everything else to `Chat`.
pub fn normalize_intent(output: &str) -> (label: IntentLabel)
    ensures
        label == intent_of(output@),
{
    let n = output.unicode_len();
    if n < 6 {
        proof {
            assert(forall|i: int| !search_at(output@, i));
        }
        return IntentLabel::Chat;
    }
    let mut i: usize = 0;
    while i <= n - 6
        invariant
            6 <= n,
            n == output@.len(),
            i <= n - 5,
            forall|j: int| 0 <= j < i ==> !search_at(output@, j),
        decreases n - i,
    {
        if matches_search_at(output, i, n) {
            return IntentLabel::Search;
        }
        i = i + 1;
    }
    proof {
        assert(forall|j: int| !search_at(output@, j));
    }
    IntentLabel::Chat
}

} // verus!
