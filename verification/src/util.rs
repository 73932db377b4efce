//! Small verified string helpers shared by the codec.

use vstd::prelude::*;

verus! {

broadcast use vstd::seq::group_seq_axioms;

/// Character-for-character string equality.
pub fn str_eq(a: &str, b: &str) -> (r: bool)
    ensures
        r == (a@ == b@),
{
    let n = a.unicode_len();
    if n != b.unicode_len() {
        proof {
            assert(a@ != b@) by {
                assert(a@.len() != b@.len());
            }
        }
        return false;
    }
    let mut i: usize = 0;
    while i < n
        invariant
            0 <= i <= n,
            n == a@.len(),
            n == b@.len(),
            forall|j: int| 0 <= j < i ==> a@[j] == b@[j],
        decreases n - i,
    {
        if a.get_char(i) != b.get_char(i) {
            return false;
        }
        i = i + 1;
    }
    proof {
        assert(a@ =~= b@);
    }
    true
}

/// Whether an object key equals a declared field name.
pub fn key_is(k: &String, name: &str) -> (r: bool)
    ensures
        r == (k@ == name@),
{
    str_eq(k.as_str(), name)
}

} // verus!
