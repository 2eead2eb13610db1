//! Trigger classification: the first stage of the pipeline.

use vstd::prelude::*;
use vstd::string::StrSliceExecFns;

verus! {

/// The dispatch mode that one invocation runs under.  Exactly one mode is
/// selected per invocation; an unsupported method never proceeds past
/// classification.
#[derive(Clone, Copy, PartialEq, Eq, Structural, Debug)]
pub enum TriggerMode {
    /// Store-driven: the recipient list comes from the registered-token store.
    Scheduled,
    /// Body-driven: the caller supplies content and/or a single token.
    Direct,
    /// Any other method: the pipeline terminates immediately.
    Unsupported,
}

/// The mode that an HTTP method string selects: the store-driven trigger
/// arrives as GET, the body-driven trigger as POST, anything else is
/// unsupported.
pub open spec fn classify_spec(m: Seq<char>) -> TriggerMode {
    if m == "GET"@ {
        TriggerMode::Scheduled
    } else if m == "POST"@ {
        TriggerMode::Direct
    } else {
        TriggerMode::Unsupported
    }
}

/// Character-for-character string equality.
fn str_eq(a: &str, b: &str) -> (r: bool)
    ensures
        r == (a@ == b@),
{
    let alen = a.unicode_len();
    let blen = b.unicode_len();
    if alen != blen {
        assert(a@.len() != b@.len());
        return false;
    }
    let mut i: usize = 0;
    while i < alen
        invariant
            0 <= i <= alen,
            alen == a@.len(),
            alen == b@.len(),
            forall|j: int| 0 <= j < i ==> a@[j] == b@[j],
        decreases alen - i,
    {
        if a.get_char(i) != b.get_char(i) {
            return false;
        }
        i = i + 1;
    }
    proof {
        assert(a@ =~= b@);
    }
    true
}

/// Select the dispatch mode for an inbound request method.
pub fn classify_method(m: &str) -> (t: TriggerMode)
    ensures
        t == classify_spec(m@),
{
    if str_eq(m, "GET") {
        TriggerMode::Scheduled
    } else if str_eq(m, "POST") {
        TriggerMode::Direct
    } else {
        TriggerMode::Unsupported
    }
}

} // verus!
