//! Identities and record addresses as plain 32-byte values, with the small
//! byte-level helpers the record codecs need.

use vstd::prelude::*;

verus! {

/// Compare two 32-byte keys.
pub fn key_eq(a: &[u8; 32], b: &[u8; 32]) -> (r: bool)
    ensures
        r == (a@ == b@),
{
    let mut i: usize = 0;
    while i < 32
        invariant
            0 <= i <= 32,
            forall|j: int| 0 <= j < i ==> a@[j] == b@[j],
        decreases 32 - i,
    {
        if a[i] != b[i] {
            assert(a@[i as int] != b@[i as int]);
            return false;
        }
        i += 1;
    }
    assert(a@ =~= b@);
    true
}

/// Read the 32 bytes of `data` starting at `off` into a key.
pub fn read_key(data: &[u8], off: usize) -> (r: [u8; 32])
    requires
        off + 32 <= data@.len(),
    ensures
        r@ == data@.subrange(off as int, off as int + 32),
{
    let n: usize = data.len();
    let mut r: [u8; 32] = [0; 32];
    let mut i: usize = 0;
    while i < 32
        invariant
            0 <= i <= 32,
            off + 32 <= n,
            n == data@.len(),
            r@.len() == 32,
            forall|j: int| 0 <= j < i ==> r@[j] == data@[off + j],
        decreases 32 - i,
    {
        r[i] = data[off + i];
        i += 1;
    }
    assert(r@ =~= data@.subrange(off as int, off as int + 32));
    r
}

/// Append the bytes of a key to `out`.
pub fn push_key(out: &mut Vec<u8>, key: &[u8; 32])
    ensures
        final(out)@ == old(out)@ + key@,
{
    let mut tail = vstd::slice::slice_to_vec(key.as_slice());
    out.append(&mut tail);
}

/// The bytes of a key as a fresh vector.
pub fn key_to_vec(key: &[u8; 32]) -> (r: Vec<u8>)
    ensures
        r@ == key@,
{
    vstd::slice::slice_to_vec(key.as_slice())
}

} // verus!
