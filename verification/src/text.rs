//! Text helpers that the other modules share.

use vstd::prelude::*;
use vstd::string::*;

verus! {

/// Whether `text` begins with `prefix`.
pub fn starts_with(text: &str, prefix: &str) -> (b: bool)
    ensures
        b == prefix@.is_prefix_of(text@),
{
    let wanted: usize = prefix.unicode_len();
    let given: usize = text.unicode_len();
    if wanted > given {
        return false;
    }
    let mut i: usize = 0;
    while i < wanted
        invariant
            i <= wanted <= given,
            wanted == prefix@.len(),
            given == text@.len(),
            forall|j: int| 0 <= j < i ==> prefix@[j] == text@[j],
        decreases wanted - i,
    {
        if prefix.get_char(i) != text.get_char(i) {
            assert(text@.subrange(0, wanted as int)[i as int] != prefix@[i as int]);
            return false;
        }
        i += 1;
    }
    assert(prefix@ =~= text@.subrange(0, wanted as int));
    true
}

/// The two texts, joined in order.
pub fn join2(a: &str, b: &str) -> (joined: String)
    ensures
        joined@ == a@ + b@,
{
    let mut joined = String::from_str(a);
    joined.append(b);
    joined
}

/// The three texts, joined in order.
pub fn join3(a: &str, b: &str, c: &str) -> (joined: String)
    ensures
        joined@ == a@ + b@ + c@,
{
    let mut joined = String::from_str(a);
    joined.append(b);
    joined.append(c);
    joined
}

} // verus!
