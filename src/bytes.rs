//! Little-endian integer encodings and byte-buffer helpers.
use vstd::prelude::*;

verus! {

/// The eight little-endian bytes of `v`.
pub open spec fn le_u64(v: u64) -> Seq<u8> {
    seq![
        v as u8,
        (v >> 8u64) as u8,
        (v >> 16u64) as u8,
        (v >> 24u64) as u8,
        (v >> 32u64) as u8,
        (v >> 40u64) as u8,
        (v >> 48u64) as u8,
        (v >> 56u64) as u8,
    ]
}

/// The sixteen little-endian bytes of `v`.
pub open spec fn le_u128(v: u128) -> Seq<u8> {
    seq![
        v as u8,
        (v >> 8u128) as u8,
        (v >> 16u128) as u8,
        (v >> 24u128) as u8,
        (v >> 32u128) as u8,
        (v >> 40u128) as u8,
        (v >> 48u128) as u8,
        (v >> 56u128) as u8,
        (v >> 64u128) as u8,
        (v >> 72u128) as u8,
        (v >> 80u128) as u8,
        (v >> 88u128) as u8,
        (v >> 96u128) as u8,
        (v >> 104u128) as u8,
        (v >> 112u128) as u8,
        (v >> 120u128) as u8,
    ]
}

/// The `u64` whose little-endian bytes start `b` at offset `at`.
pub open spec fn read_le_u64(b: Seq<u8>, at: int) -> u64 {
    (b[at] as u64) | ((b[at + 1] as u64) << 8u64) | ((b[at + 2] as u64) << 16u64) | ((b[at
        + 3] as u64) << 24u64) | ((b[at + 4] as u64) << 32u64) | ((b[at + 5] as u64) << 40u64)
        | ((b[at + 6] as u64) << 48u64) | ((b[at + 7] as u64) << 56u64)
}

/// The `u128` whose little-endian bytes start `b` at offset `at`.
pub open spec fn read_le_u128(b: Seq<u8>, at: int) -> u128 {
    (read_le_u64(b, at) as u128) | ((read_le_u64(b, at + 8) as u128) << 64u128)
}

/// Appends the bytes of `b` to `out`.
pub fn append_bytes(out: &mut Vec<u8>, b: &[u8])
    ensures
        final(out)@ == old(out)@ + b@,
{
    let mut i: usize = 0;
    while i < b.len()
        invariant
            i <= b@.len(),
            out@ == old(out)@ + b@.subrange(0, i as int),
        decreases b@.len() - i,
    {
        out.push(b[i]);
        i = i + 1;
        assert(out@ =~= old(out)@ + b@.subrange(0, i as int));
    }
    assert(b@.subrange(0, b@.len() as int) =~= b@);
}

/// Appends the little-endian bytes of `v` to `out`.
pub fn append_le_u64(out: &mut Vec<u8>, v: u64)
    ensures
        final(out)@ == old(out)@ + le_u64(v),
{
    out.push(v as u8);
    out.push((v >> 8u64) as u8);
    out.push((v >> 16u64) as u8);
    out.push((v >> 24u64) as u8);
    out.push((v >> 32u64) as u8);
    out.push((v >> 40u64) as u8);
    out.push((v >> 48u64) as u8);
    out.push((v >> 56u64) as u8);
    assert(out@ =~= old(out)@ + le_u64(v));
}

/// Appends the little-endian bytes of `v` to `out`.
pub fn append_le_u128(out: &mut Vec<u8>, v: u128)
    ensures
        final(out)@ == old(out)@ + le_u128(v),
{
    out.push(v as u8);
    out.push((v >> 8u128) as u8);
    out.push((v >> 16u128) as u8);
    out.push((v >> 24u128) as u8);
    out.push((v >> 32u128) as u8);
    out.push((v >> 40u128) as u8);
    out.push((v >> 48u128) as u8);
    out.push((v >> 56u128) as u8);
    out.push((v >> 64u128) as u8);
    out.push((v >> 72u128) as u8);
    out.push((v >> 80u128) as u8);
    out.push((v >> 88u128) as u8);
    out.push((v >> 96u128) as u8);
    out.push((v >> 104u128) as u8);
    out.push((v >> 112u128) as u8);
    out.push((v >> 120u128) as u8);
    assert(out@ =~= old(out)@ + le_u128(v));
}

/// Reads the little-endian `u64` that starts `b` at offset `at`.
pub fn load_le_u64(b: &[u8], at: usize) -> (r: u64)
    requires
        at + 8 <= b.len(),
    ensures
        r == read_le_u64(b@, at as int),
{
    (b[at] as u64) | ((b[at + 1] as u64) << 8u64) | ((b[at + 2] as u64) << 16u64) | ((b[at
        + 3] as u64) << 24u64) | ((b[at + 4] as u64) << 32u64) | ((b[at + 5] as u64) << 40u64)
        | ((b[at + 6] as u64) << 48u64) | ((b[at + 7] as u64) << 56u64)
}

/// Reads the little-endian `u128` that starts `b` at offset `at`.
pub fn load_le_u128(b: &[u8], at: usize) -> (r: u128)
    requires
        at + 16 <= b.len(),
    ensures
        r == read_le_u128(b@, at as int),
{
    let lo = load_le_u64(b, at);
    let hi = load_le_u64(b, at + 8);
    (lo as u128) | ((hi as u128) << 64u128)
}

/// The 32 bytes of `b` that start at offset `at`.
pub fn load_bytes32(b: &[u8], at: usize) -> (r: [u8; 32])
    requires
        at + 32 <= b.len(),
    ensures
        r@ == b@.subrange(at as int, at + 32),
{
    let mut r = [0u8; 32];
    let mut i: usize = 0;
    while i < 32
        invariant
            i <= 32,
            at + 32 <= b.len(),
            r@.len() == 32,
            forall|j: int| 0 <= j < i ==> r@[j] == b@[at + j],
        decreases 32 - i,
    {
        r[i] = b[at + i];
        i = i + 1;
    }
    assert(r@ =~= b@.subrange(at as int, at + 32));
    r
}

/// Whether two byte strings are equal.
pub fn bytes_eq(a: &[u8], b: &[u8]) -> (r: bool)
    ensures
        r == (a@ == b@),
{
    if a.len() != b.len() {
        return false;
    }
    let mut i: usize = 0;
    while i < a.len()
        invariant
            a@.len() == b@.len(),
            i <= a@.len(),
            forall|j: int| 0 <= j < i ==> a@[j] == b@[j],
        decreases a@.len() - i,
    {
        if a[i] != b[i] {
            return false;
        }
        i = i + 1;
    }
    assert(a@ =~= b@);
    true
}

/// A vector holding the bytes of `b`.
pub fn bytes_to_vec(b: &[u8]) -> (r: Vec<u8>)
    ensures
        r@ == b@,
{
    let mut r: Vec<u8> = Vec::new();
    append_bytes(&mut r, b);
    assert(r@ =~= b@);
    r
}

} // verus!
