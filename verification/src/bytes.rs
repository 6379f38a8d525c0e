//! Small helpers on byte strings.

use vstd::prelude::*;

verus! {

/// Tells whether two byte strings hold the same bytes.
pub fn bytes_eq(a: &[u8], b: &[u8]) -> (same: bool)
    ensures
        same == (a@ == b@),
{
    if a.len() != b.len() {
        return false;
    }
    let mut i: usize = 0;
    while i < a.len()
        invariant
            a.len() == b.len(),
            i <= a.len(),
            forall|j: int| 0 <= j < i ==> a@[j] == b@[j],
        decreases a.len() - i,
    {
        if a[i] != b[i] {
            return false;
        }
        i += 1;
    }
    assert(a@ =~= b@);
    true
}

/// Copies `slice` to the front of `output` and leaves the rest of `output`
/// as it was. The buffer has to be large enough.
pub fn set_output(output: &mut [u8], slice: &[u8])
    requires
        slice@.len() <= old(output)@.len(),
    ensures
        final(output)@ == slice@ + old(output)@.subrange(
            slice@.len() as int,
            old(output)@.len() as int,
        ),
{
    let mut i: usize = 0;
    while i < slice.len()
        invariant
            i <= slice@.len(),
            slice@.len() <= output@.len(),
            output@.len() == old(output)@.len(),
            forall|j: int| 0 <= j < i ==> output@[j] == slice@[j],
            forall|j: int| i <= j < output@.len() ==> output@[j] == old(output)@[j],
        decreases slice@.len() - i,
    {
        output[i] = slice[i];
        i += 1;
    }
    assert(output@ =~= slice@ + old(output)@.subrange(
        slice@.len() as int,
        old(output)@.len() as int,
    ));
}

} // verus!
