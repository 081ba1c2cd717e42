//! Small operations on byte strings that the engine is built from.

use vstd::prelude::*;

verus! {

/// The first `N` bytes of `bytes`, as an array.
pub fn leading_bytes<const N: usize>(bytes: &[u8]) -> (head: [u8; N])
    requires
        bytes@.len() >= N,
    ensures
        head@ == bytes@.subrange(0, N as int),
{
    let mut head = [0u8; N];
    let mut i: usize = 0;
    while i < N
        invariant
            i <= N,
            bytes@.len() >= N,
            head@.len() == N,
            forall|j: int| 0 <= j < i ==> head@[j] == bytes@[j],
        decreases N - i,
    {
        head[i] = bytes[i];
        i += 1;
    }
    assert(head@ =~= bytes@.subrange(0, N as int));
    head
}

/// Whether two byte strings are equal: same length, same byte at each place.
pub fn same_bytes(left: &[u8], right: &[u8]) -> (same: bool)
    ensures
        same == (left@ == right@),
{
    if left.len() != right.len() {
        return false;
    }
    let mut i: usize = 0;
    while i < left.len()
        invariant
            i <= left@.len(),
            left@.len() == right@.len(),
            forall|j: int| 0 <= j < i ==> left@[j] == right@[j],
        decreases left@.len() - i,
    {
        if left[i] != right[i] {
            return false;
        }
        i += 1;
    }
    assert(left@ =~= right@);
    true
}

/// `head` followed by `tail`, in a new vector.
pub fn joined(head: &[u8], tail: &[u8]) -> (all: Vec<u8>)
    ensures
        all@ == head@ + tail@,
{
    let mut all: Vec<u8> = Vec::new();
    let mut i: usize = 0;
    while i < head.len()
        invariant
            i <= head@.len(),
            all@ == head@.subrange(0, i as int),
        decreases head@.len() - i,
    {
        all.push(head[i]);
        i += 1;
        assert(all@ =~= head@.subrange(0, i as int));
    }
    assert(all@ =~= head@);
    let mut j: usize = 0;
    while j < tail.len()
        invariant
            j <= tail@.len(),
            all@ == head@ + tail@.subrange(0, j as int),
        decreases tail@.len() - j,
    {
        all.push(tail[j]);
        j += 1;
        assert(all@ =~= head@ + tail@.subrange(0, j as int));
    }
    assert(all@ =~= head@ + tail@);
    all
}

} // verus!
