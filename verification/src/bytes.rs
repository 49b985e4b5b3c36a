//! Byte-buffer utilities: range copies, secure wiping, and a
//! constant-time-style comparison built on a running bitwise accumulator.

use vstd::prelude::*;

verus! {

/// Copies `src[start..end]` into a fresh vector.
pub fn copy_range(src: &Vec<u8>, start: usize, end: usize) -> (r: Vec<u8>)
    requires
        start <= end <= src@.len(),
    ensures
        r@ == src@.subrange(start as int, end as int),
{
    let mut out: Vec<u8> = Vec::new();
    let mut i: usize = start;
    while i < end
        invariant
            start <= i <= end <= src@.len(),
            out@ == src@.subrange(start as int, i as int),
        decreases end - i,
    {
        out.push(src[i]);
        i = i + 1;
        proof {
            assert(out@ =~= src@.subrange(start as int, i as int));
        }
    }
    out
}

/// Overwrites every byte with zero, keeping the length. Used to retire
/// passwords and derived secrets on every exit path.
pub fn wipe(buf: &mut Vec<u8>)
    ensures
        final(buf)@.len() == old(buf)@.len(),
        forall|i: int| 0 <= i < final(buf)@.len() ==> final(buf)@[i] == 0u8,
{
    let n = buf.len();
    let mut i: usize = 0;
    while i < n
        invariant
            i <= n == buf@.len(),
            forall|j: int| 0 <= j < i ==> buf@[j] == 0u8,
        decreases n - i,
    {
        buf.set(i, 0u8);
        i = i + 1;
    }
}

/// Compares two byte strings without an early exit on the first differing
/// byte: differences are folded into one accumulator that is inspected once.
pub fn ct_eq(a: &Vec<u8>, b: &Vec<u8>) -> (r: bool)
    ensures
        r <==> a@ == b@,
{
    if a.len() != b.len() {
        proof {
            assert(a@.len() != b@.len());
        }
        return false;
    }
    let n = a.len();
    let mut acc: u8 = 0;
    let mut i: usize = 0;
    while i < n
        invariant
            i <= n,
            n == a@.len() == b@.len(),
            (acc == 0u8) <==> (forall|j: int| 0 <= j < i ==> a@[j] == b@[j]),
        decreases n - i,
    {
        let x: u8 = a[i] ^ b[i];
        proof {
            let av = a@[i as int];
            let bv = b@[i as int];
            let old_acc = acc;
            assert((old_acc | (av ^ bv)) == 0u8 <==> (old_acc == 0u8 && av == bv))
                by (bit_vector);
        }
        acc = acc | x;
        i = i + 1;
    }
    if acc == 0 {
        proof {
            assert(forall|j: int| 0 <= j < n ==> a@[j] == b@[j]);
            assert(a@ =~= b@);
        }
        true
    } else {
        false
    }
}

} // verus!
