//! Little-endian encoding of the integers, flags and keys that make up
//! account data and event payloads.
use vstd::prelude::*;

use crate::pubkey::Pubkey;

verus! {

/// Little-endian bytes of a `u16`.
pub open spec fn le_u16(x: u16) -> Seq<u8> {
    seq![x as u8, (x >> 8u16) as u8]
}

/// Little-endian bytes of a `u32`.
pub open spec fn le_u32(x: u32) -> Seq<u8> {
    seq![x as u8, (x >> 8u32) as u8, (x >> 16u32) as u8, (x >> 24u32) as u8]
}

/// Little-endian bytes of a `u64`.
pub open spec fn le_u64(x: u64) -> Seq<u8> {
    seq![
        x as u8,
        (x >> 8u64) as u8,
        (x >> 16u64) as u8,
        (x >> 24u64) as u8,
        (x >> 32u64) as u8,
        (x >> 40u64) as u8,
        (x >> 48u64) as u8,
        (x >> 56u64) as u8,
    ]
}

/// Two's-complement little-endian bytes of an `i64`.
pub open spec fn le_i64(x: i64) -> Seq<u8> {
    le_u64(x as u64)
}

/// One byte, 1 for true and 0 for false.
pub open spec fn bool_byte(b: bool) -> Seq<u8> {
    seq![if b { 1u8 } else { 0u8 }]
}

/// The 32 bytes of a key.
pub open spec fn key_bytes(k: Pubkey) -> Seq<u8> {
    k.0@
}

/// The `u16` whose little-endian bytes start at `at`.
pub open spec fn u16_at(s: Seq<u8>, at: int) -> u16 {
    (s[at] as u16) | ((s[at + 1] as u16) << 8u16)
}

/// The `u32` whose little-endian bytes start at `at`.
pub open spec fn u32_at(s: Seq<u8>, at: int) -> u32 {
    (s[at] as u32) | ((s[at + 1] as u32) << 8u32) | ((s[at + 2] as u32) << 16u32) | ((s[at
        + 3] as u32) << 24u32)
}

/// The `u64` whose little-endian bytes start at `at`.
pub open spec fn u64_at(s: Seq<u8>, at: int) -> u64 {
    (s[at] as u64) | ((s[at + 1] as u64) << 8u64) | ((s[at + 2] as u64) << 16u64) | ((s[at
        + 3] as u64) << 24u64) | ((s[at + 4] as u64) << 32u64) | ((s[at + 5] as u64) << 40u64)
        | ((s[at + 6] as u64) << 48u64) | ((s[at + 7] as u64) << 56u64)
}

/// The `i64` whose two's-complement little-endian bytes start at `at`.
pub open spec fn i64_at(s: Seq<u8>, at: int) -> i64 {
    u64_at(s, at) as i64
}

/// A 32-byte array holding the first `k` bytes of `s` followed by zeros.
pub open spec fn array_prefix(s: Seq<u8>, k: nat) -> [u8; 32]
    decreases k,
{
    if k == 0 {
        vstd::array::spec_array_fill_for_copy_type::<u8, 32>(0u8)
    } else {
        vstd::array::spec_array_update(array_prefix(s, (k - 1) as nat), k - 1, s[k - 1])
    }
}

/// The array built from `s` holds the first `k` bytes of `s`.
pub proof fn lemma_array_prefix(s: Seq<u8>, k: nat)
    requires
        k <= 32,
        s.len() >= k,
    ensures
        forall|i: int| 0 <= i < k ==> #[trigger] array_prefix(s, k)@[i] == s[i],
    decreases k,
{
    broadcast use vstd::array::group_array_axioms;

    if k > 0 {
        lemma_array_prefix(s, (k - 1) as nat);
        let prev = array_prefix(s, (k - 1) as nat);
        assert(array_prefix(s, k)@ == prev@.update(k - 1, s[k - 1]));
    }
}

/// The key whose bytes start at `at`.
pub open spec fn key_at(s: Seq<u8>, at: int) -> Pubkey {
    Pubkey(array_prefix(s.subrange(at, at + 32), 32))
}

/// The bytes of the key read at `at` are the bytes there.
pub proof fn lemma_key_at(s: Seq<u8>, at: int)
    requires
        0 <= at,
        at + 32 <= s.len(),
    ensures
        key_at(s, at).0@ == s.subrange(at, at + 32),
{
    lemma_array_prefix(s.subrange(at, at + 32), 32);
    assert(key_at(s, at).0@ =~= s.subrange(at, at + 32));
}

/// Reading back the bytes of a `u16` gives the `u16`.
pub proof fn lemma_u16_roundtrip(x: u16, s: Seq<u8>, at: int)
    requires
        0 <= at,
        at + 2 <= s.len(),
        s.subrange(at, at + 2) == le_u16(x),
    ensures
        u16_at(s, at) == x,
{
    assert(s[at] == le_u16(x)[0]);
    assert(s[at + 1] == le_u16(x)[1]);
    let b0 = s[at];
    let b1 = s[at + 1];
    assert(b0 == x as u8 && b1 == (x >> 8u16) as u8 ==> (b0 as u16) | ((b1 as u16) << 8u16)
        == x) by (bit_vector);
}

/// The bytes of the `u16` read at `at` are the bytes there.
pub proof fn lemma_u16_bytes(s: Seq<u8>, at: int)
    requires
        0 <= at,
        at + 2 <= s.len(),
    ensures
        le_u16(u16_at(s, at)) == s.subrange(at, at + 2),
{
    let b0 = s[at];
    let b1 = s[at + 1];
    let v = (b0 as u16) | ((b1 as u16) << 8u16);
    assert(v as u8 == b0 && (v >> 8u16) as u8 == b1) by (bit_vector)
        requires
            v == (b0 as u16) | ((b1 as u16) << 8u16),
    ;
    assert(le_u16(u16_at(s, at)) =~= s.subrange(at, at + 2));
}

/// Reading back the bytes of a `u32` gives the `u32`.
pub proof fn lemma_u32_roundtrip(x: u32, s: Seq<u8>, at: int)
    requires
        0 <= at,
        at + 4 <= s.len(),
        s.subrange(at, at + 4) == le_u32(x),
    ensures
        u32_at(s, at) == x,
{
    assert(s[at] == le_u32(x)[0]);
    assert(s[at + 1] == le_u32(x)[1]);
    assert(s[at + 2] == le_u32(x)[2]);
    assert(s[at + 3] == le_u32(x)[3]);
    let b0 = s[at];
    let b1 = s[at + 1];
    let b2 = s[at + 2];
    let b3 = s[at + 3];
    assert(b0 == x as u8 && b1 == (x >> 8u32) as u8 && b2 == (x >> 16u32) as u8 && b3 == (x
        >> 24u32) as u8 ==> (b0 as u32) | ((b1 as u32) << 8u32) | ((b2 as u32) << 16u32) | ((
    b3 as u32) << 24u32) == x) by (bit_vector);
}

/// The bytes of the `u32` read at `at` are the bytes there.
pub proof fn lemma_u32_bytes(s: Seq<u8>, at: int)
    requires
        0 <= at,
        at + 4 <= s.len(),
    ensures
        le_u32(u32_at(s, at)) == s.subrange(at, at + 4),
{
    let b0 = s[at];
    let b1 = s[at + 1];
    let b2 = s[at + 2];
    let b3 = s[at + 3];
    let v = u32_at(s, at);
    assert(v as u8 == b0 && (v >> 8u32) as u8 == b1 && (v >> 16u32) as u8 == b2 && (v >> 24u32) as u8
        == b3) by (bit_vector)
        requires
            v == (b0 as u32) | ((b1 as u32) << 8u32) | ((b2 as u32) << 16u32) | ((b3 as u32)
                << 24u32),
    ;
    assert(le_u32(u32_at(s, at)) =~= s.subrange(at, at + 4));
}

/// Reading back the bytes of a `u64` gives the `u64`.
pub proof fn lemma_u64_roundtrip(x: u64, s: Seq<u8>, at: int)
    requires
        0 <= at,
        at + 8 <= s.len(),
        s.subrange(at, at + 8) == le_u64(x),
    ensures
        u64_at(s, at) == x,
{
    assert(s[at] == le_u64(x)[0]);
    assert(s[at + 1] == le_u64(x)[1]);
    assert(s[at + 2] == le_u64(x)[2]);
    assert(s[at + 3] == le_u64(x)[3]);
    assert(s[at + 4] == le_u64(x)[4]);
    assert(s[at + 5] == le_u64(x)[5]);
    assert(s[at + 6] == le_u64(x)[6]);
    assert(s[at + 7] == le_u64(x)[7]);
    let b0 = s[at];
    let b1 = s[at + 1];
    let b2 = s[at + 2];
    let b3 = s[at + 3];
    let b4 = s[at + 4];
    let b5 = s[at + 5];
    let b6 = s[at + 6];
    let b7 = s[at + 7];
    assert(b0 == x as u8 && b1 == (x >> 8u64) as u8 && b2 == (x >> 16u64) as u8 && b3 == (x
        >> 24u64) as u8 && b4 == (x >> 32u64) as u8 && b5 == (x >> 40u64) as u8 && b6 == (x
        >> 48u64) as u8 && b7 == (x >> 56u64) as u8 ==> (b0 as u64) | ((b1 as u64) << 8u64) | ((
    b2 as u64) << 16u64) | ((b3 as u64) << 24u64) | ((b4 as u64) << 32u64) | ((b5 as u64)
        << 40u64) | ((b6 as u64) << 48u64) | ((b7 as u64) << 56u64) == x) by (bit_vector);
}

/// The bytes of the `u64` read at `at` are the bytes there.
pub proof fn lemma_u64_bytes(s: Seq<u8>, at: int)
    requires
        0 <= at,
        at + 8 <= s.len(),
    ensures
        le_u64(u64_at(s, at)) == s.subrange(at, at + 8),
{
    let b0 = s[at];
    let b1 = s[at + 1];
    let b2 = s[at + 2];
    let b3 = s[at + 3];
    let b4 = s[at + 4];
    let b5 = s[at + 5];
    let b6 = s[at + 6];
    let b7 = s[at + 7];
    let v = u64_at(s, at);
    assert(v as u8 == b0 && (v >> 8u64) as u8 == b1 && (v >> 16u64) as u8 == b2 && (v >> 24u64) as u8
        == b3 && (v >> 32u64) as u8 == b4 && (v >> 40u64) as u8 == b5 && (v >> 48u64) as u8 == b6
        && (v >> 56u64) as u8 == b7) by (bit_vector)
        requires
            v == (b0 as u64) | ((b1 as u64) << 8u64) | ((b2 as u64) << 16u64) | ((b3 as u64)
                << 24u64) | ((b4 as u64) << 32u64) | ((b5 as u64) << 40u64) | ((b6 as u64)
                << 48u64) | ((b7 as u64) << 56u64),
    ;
    assert(le_u64(u64_at(s, at)) =~= s.subrange(at, at + 8));
}

/// Reading back the bytes of an `i64` gives the `i64`.
pub proof fn lemma_i64_roundtrip(x: i64, s: Seq<u8>, at: int)
    requires
        0 <= at,
        at + 8 <= s.len(),
        s.subrange(at, at + 8) == le_i64(x),
    ensures
        i64_at(s, at) == x,
{
    lemma_u64_roundtrip(x as u64, s, at);
    assert((x as u64) as i64 == x) by (bit_vector);
}

/// The bytes of the `i64` read at `at` are the bytes there.
pub proof fn lemma_i64_bytes(s: Seq<u8>, at: int)
    requires
        0 <= at,
        at + 8 <= s.len(),
    ensures
        le_i64(i64_at(s, at)) == s.subrange(at, at + 8),
{
    lemma_u64_bytes(s, at);
    let v = u64_at(s, at);
    assert((v as i64) as u64 == v) by (bit_vector);
}

/// Reading back the bytes of a key gives the key.
pub proof fn lemma_key_roundtrip(k: Pubkey, s: Seq<u8>, at: int)
    requires
        0 <= at,
        at + 32 <= s.len(),
        s.subrange(at, at + 32) == key_bytes(k),
    ensures
        key_at(s, at) == k,
{
    broadcast use vstd::array::group_array_axioms;

    lemma_key_at(s, at);
    assert(key_at(s, at).0 =~= k.0);
}

/// The bytes of the key read at `at` are the bytes there.
pub proof fn lemma_key_bytes(s: Seq<u8>, at: int)
    requires
        0 <= at,
        at + 32 <= s.len(),
    ensures
        key_bytes(key_at(s, at)) == s.subrange(at, at + 32),
{
    lemma_key_at(s, at);
}

/// Appends bytes to `out`.
pub fn push_bytes(out: &mut Vec<u8>, bytes: &[u8])
    ensures
        final(out)@ == old(out)@ + bytes@,
{
    let mut i: usize = 0;
    while i < bytes.len()
        invariant
            i <= bytes@.len(),
            out@ == old(out)@ + bytes@.subrange(0, i as int),
        decreases bytes@.len() - i,
    {
        out.push(bytes[i]);
        i = i + 1;
        assert(out@ =~= old(out)@ + bytes@.subrange(0, i as int));
    }
    assert(bytes@.subrange(0, bytes@.len() as int) =~= bytes@);
}

/// Appends the little-endian bytes of a `u16`.
pub fn push_u16(out: &mut Vec<u8>, x: u16)
    ensures
        final(out)@ == old(out)@ + le_u16(x),
{
    out.push(x as u8);
    out.push((x >> 8u16) as u8);
    assert(out@ =~= old(out)@ + le_u16(x));
}

/// Appends the little-endian bytes of a `u32`.
pub fn push_u32(out: &mut Vec<u8>, x: u32)
    ensures
        final(out)@ == old(out)@ + le_u32(x),
{
    out.push(x as u8);
    out.push((x >> 8u32) as u8);
    out.push((x >> 16u32) as u8);
    out.push((x >> 24u32) as u8);
    assert(out@ =~= old(out)@ + le_u32(x));
}

/// Appends the little-endian bytes of a `u64`.
pub fn push_u64(out: &mut Vec<u8>, x: u64)
    ensures
        final(out)@ == old(out)@ + le_u64(x),
{
    out.push(x as u8);
    out.push((x >> 8u64) as u8);
    out.push((x >> 16u64) as u8);
    out.push((x >> 24u64) as u8);
    out.push((x >> 32u64) as u8);
    out.push((x >> 40u64) as u8);
    out.push((x >> 48u64) as u8);
    out.push((x >> 56u64) as u8);
    assert(out@ =~= old(out)@ + le_u64(x));
}

/// Appends the two's-complement little-endian bytes of an `i64`.
pub fn push_i64(out: &mut Vec<u8>, x: i64)
    ensures
        final(out)@ == old(out)@ + le_i64(x),
{
    push_u64(out, x as u64);
}

/// Appends one byte for a flag.
pub fn push_bool(out: &mut Vec<u8>, b: bool)
    ensures
        final(out)@ == old(out)@ + bool_byte(b),
{
    out.push(if b { 1u8 } else { 0u8 });
    assert(out@ =~= old(out)@ + bool_byte(b));
}

/// Appends the 32 bytes of a key.
pub fn push_key(out: &mut Vec<u8>, k: &Pubkey)
    ensures
        final(out)@ == old(out)@ + key_bytes(*k),
{
    push_bytes(out, k.0.as_slice());
}

/// Appends `n` zero bytes.
pub fn push_zeros(out: &mut Vec<u8>, n: usize)
    ensures
        final(out)@ == old(out)@ + Seq::new(n as nat, |i: int| 0u8),
{
    let mut i: usize = 0;
    while i < n
        invariant
            i <= n,
            out@ == old(out)@ + Seq::new(i as nat, |j: int| 0u8),
        decreases n - i,
    {
        out.push(0u8);
        i = i + 1;
        assert(out@ =~= old(out)@ + Seq::new(i as nat, |j: int| 0u8));
    }
}

/// Reads the `u16` at `at`.
pub fn read_u16(data: &[u8], at: usize) -> (x: u16)
    requires
        at + 2 <= data@.len(),
    ensures
        x == u16_at(data@, at as int),
{
    (data[at] as u16) | ((data[at + 1] as u16) << 8u16)
}

/// Reads the `u32` at `at`.
pub fn read_u32(data: &[u8], at: usize) -> (x: u32)
    requires
        at + 4 <= data@.len(),
    ensures
        x == u32_at(data@, at as int),
{
    (data[at] as u32) | ((data[at + 1] as u32) << 8u32) | ((data[at + 2] as u32) << 16u32) | ((
    data[at + 3] as u32) << 24u32)
}

/// Reads the `u64` at `at`.
pub fn read_u64(data: &[u8], at: usize) -> (x: u64)
    requires
        at + 8 <= data@.len(),
    ensures
        x == u64_at(data@, at as int),
{
    (data[at] as u64) | ((data[at + 1] as u64) << 8u64) | ((data[at + 2] as u64) << 16u64) | ((
    data[at + 3] as u64) << 24u64) | ((data[at + 4] as u64) << 32u64) | ((data[at + 5] as u64)
        << 40u64) | ((data[at + 6] as u64) << 48u64) | ((data[at + 7] as u64) << 56u64)
}

/// Reads the `i64` at `at`.
pub fn read_i64(data: &[u8], at: usize) -> (x: i64)
    requires
        at + 8 <= data@.len(),
    ensures
        x == i64_at(data@, at as int),
{
    read_u64(data, at) as i64
}

/// Reads the key at `at`.
pub fn read_key(data: &[u8], at: usize) -> (k: Pubkey)
    requires
        at + 32 <= data@.len(),
    ensures
        k == key_at(data@, at as int),
{
    broadcast use vstd::array::group_array_axioms;

    let mut bytes: [u8; 32] = [
        0u8, 0, 0, 0, 0, 0, 0, 0, 0, 0, 0, 0, 0, 0, 0, 0, 0, 0, 0, 0, 0, 0, 0, 0, 0, 0, 0, 0, 0, 0,
        0, 0,
    ];
    let n = data.len();
    let mut i: usize = 0;
    while i < 32
        invariant
            i <= 32,
            n == data@.len(),
            at + 32 <= data@.len(),
            forall|j: int| 0 <= j < i ==> bytes@[j] == data@[at + j],
        decreases 32 - i,
    {
        bytes[i] = data[at + i];
        i = i + 1;
    }
    assert(bytes@ =~= data@.subrange(at as int, at + 32));
    proof {
        lemma_key_at(data@, at as int);
        assert(key_at(data@, at as int).0 =~= bytes);
    }
    Pubkey(bytes)
}

} // verus!
