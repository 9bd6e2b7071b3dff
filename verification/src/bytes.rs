//! Little-endian byte encodings used by the wire protocol, as specifications
//! over byte sequences together with executable writers and readers.
use vstd::prelude::*;
use vstd::utf8::encode_utf8;

verus! {

/// Two bytes of `v`, least significant first.
pub open spec fn le16(v: u16) -> Seq<u8> {
    seq![(v % 256) as u8, (v / 256) as u8]
}

/// Four bytes of `v`, least significant first.
pub open spec fn le32(v: u32) -> Seq<u8> {
    seq![
        (v % 256) as u8,
        ((v / 256) % 256) as u8,
        ((v / 65536) % 256) as u8,
        (v / 16777216) as u8,
    ]
}

/// Eight bytes of `v`, least significant first.
pub open spec fn le64(v: u64) -> Seq<u8> {
    le32((v % 4294967296) as u32) + le32((v / 4294967296) as u32)
}

/// The two's complement encoding of a signed 32-bit value.
pub open spec fn le_i32(v: i32) -> Seq<u8> {
    le32(v as u32)
}

/// The value of two little-endian bytes.
pub open spec fn read_le16(b0: u8, b1: u8) -> u16 {
    (b0 + 256 * b1) as u16
}

/// The value of four little-endian bytes.
pub open spec fn read_le32(b0: u8, b1: u8, b2: u8, b3: u8) -> u32 {
    (b0 + 256 * b1 + 65536 * b2 + 16777216 * b3) as u32
}

/// The UTF-8 bytes of a string preceded by their count as a `u16`
/// (the count wraps modulo 65536 as the protocol's length field does).
pub open spec fn str16(s: Seq<char>) -> Seq<u8> {
    le16((encode_utf8(s).len() % 65536) as u16) + encode_utf8(s)
}

/// Reading back the two bytes of `v` gives `v`.
pub proof fn lemma_read_le16(v: u16)
    ensures
        read_le16(le16(v)[0], le16(v)[1]) == v,
{
}

/// Reading back the four bytes of `v` gives `v`.
pub proof fn lemma_read_le32(v: u32)
    ensures
        read_le32(le32(v)[0], le32(v)[1], le32(v)[2], le32(v)[3]) == v,
{
}

/// The `u16` stored little-endian at byte `k` of `s`.
pub open spec fn u16_at(s: Seq<u8>, k: int) -> u16 {
    read_le16(s[k], s[k + 1])
}

/// The `u32` stored little-endian at byte `k` of `s`.
pub open spec fn u32_at(s: Seq<u8>, k: int) -> u32 {
    read_le32(s[k], s[k + 1], s[k + 2], s[k + 3])
}

/// The `i32` stored little-endian (two's complement) at byte `k` of `s`.
pub open spec fn i32_at(s: Seq<u8>, k: int) -> i32 {
    u32_at(s, k) as i32
}

/// The `u64` stored little-endian at byte `k` of `s`.
pub open spec fn u64_at(s: Seq<u8>, k: int) -> u64 {
    (u32_at(s, k) + u32_at(s, k + 4) * 0x1_0000_0000) as u64
}

/// Two bytes holding `le16(v)` read back as `v`.
pub proof fn lemma_u16_at(s: Seq<u8>, k: int, v: u16)
    requires
        0 <= k,
        k + 2 <= s.len(),
        s.subrange(k, k + 2) == le16(v),
    ensures
        u16_at(s, k) == v,
{
    assert(s[k] == s.subrange(k, k + 2)[0] && s[k + 1] == s.subrange(k, k + 2)[1]);
    lemma_read_le16(v);
}

/// Four bytes holding `le32(v)` read back as `v`.
pub proof fn lemma_u32_at(s: Seq<u8>, k: int, v: u32)
    requires
        0 <= k,
        k + 4 <= s.len(),
        s.subrange(k, k + 4) == le32(v),
    ensures
        u32_at(s, k) == v,
{
    let w = s.subrange(k, k + 4);
    assert(s[k] == w[0] && s[k + 1] == w[1] && s[k + 2] == w[2] && s[k + 3] == w[3]);
    lemma_read_le32(v);
}

/// Four bytes holding `le_i32(v)` read back as `v`.
pub proof fn lemma_i32_at(s: Seq<u8>, k: int, v: i32)
    requires
        0 <= k,
        k + 4 <= s.len(),
        s.subrange(k, k + 4) == le_i32(v),
    ensures
        i32_at(s, k) == v,
{
    lemma_u32_at(s, k, v as u32);
    assert(((v as u32) as i32) == v) by (bit_vector);
}

/// Eight bytes holding `le64(v)` read back as `v`.
pub proof fn lemma_u64_at(s: Seq<u8>, k: int, v: u64)
    requires
        0 <= k,
        k + 8 <= s.len(),
        s.subrange(k, k + 8) == le64(v),
    ensures
        u64_at(s, k) == v,
{
    let lo = (v % 4294967296) as u32;
    let hi = (v / 4294967296) as u32;
    assert(s.subrange(k, k + 4) =~= s.subrange(k, k + 8).subrange(0, 4));
    assert(s.subrange(k + 4, k + 8) =~= s.subrange(k, k + 8).subrange(4, 8));
    assert(le64(v).subrange(0, 4) =~= le32(lo));
    assert(le64(v).subrange(4, 8) =~= le32(hi));
    lemma_u32_at(s, k, lo);
    lemma_u32_at(s, k + 4, hi);
}

/// Appends the little-endian bytes of a `u16`.
pub fn push_u16(buf: &mut Vec<u8>, v: u16)
    ensures
        final(buf)@ == old(buf)@ + le16(v),
{
    buf.push((v % 256) as u8);
    buf.push((v / 256) as u8);
}

/// Appends the little-endian bytes of a `u32`.
pub fn push_u32(buf: &mut Vec<u8>, v: u32)
    ensures
        final(buf)@ == old(buf)@ + le32(v),
{
    buf.push((v % 256) as u8);
    buf.push(((v / 256) % 256) as u8);
    buf.push(((v / 65536) % 256) as u8);
    buf.push((v / 16777216) as u8);
}

/// Appends the little-endian bytes of a `u64`.
pub fn push_u64(buf: &mut Vec<u8>, v: u64)
    ensures
        final(buf)@ == old(buf)@ + le64(v),
{
    push_u32(buf, (v % 4294967296) as u32);
    push_u32(buf, (v / 4294967296) as u32);
}

/// Appends the two's complement little-endian bytes of an `i32`.
pub fn push_i32(buf: &mut Vec<u8>, v: i32)
    ensures
        final(buf)@ == old(buf)@ + le_i32(v),
{
    push_u32(buf, v as u32);
}

/// Appends a byte slice.
pub fn push_bytes(buf: &mut Vec<u8>, bytes: &[u8])
    ensures
        final(buf)@ == old(buf)@ + bytes@,
{
    let ghost start = buf@;
    let mut i: usize = 0;
    while i < bytes.len()
        invariant
            i <= bytes.len(),
            buf@ == start + bytes@.subrange(0, i as int),
        decreases bytes.len() - i,
    {
        buf.push(bytes[i]);
        i = i + 1;
        assert(buf@ =~= start + bytes@.subrange(0, i as int));
    }
    assert(bytes@.subrange(0, i as int) =~= bytes@);
}

/// Appends a string's UTF-8 bytes preceded by their count as a `u16`.
pub fn push_str16(buf: &mut Vec<u8>, s: &str)
    ensures
        final(buf)@ == old(buf)@ + str16(s@),
{
    let bytes = s.as_bytes();
    let n = bytes.len();
    push_u16(buf, (n % 65536) as u16);
    push_bytes(buf, bytes);
}

/// Reads a little-endian `u16` at `at`.
pub fn get_u16(data: &[u8], at: usize) -> (r: u16)
    requires
        at + 2 <= data@.len(),
    ensures
        r == read_le16(data@[at as int], data@[at + 1]),
{
    data[at] as u16 + 256 * (data[at + 1] as u16)
}

/// Reads a little-endian `u32` at `at`.
pub fn get_u32(data: &[u8], at: usize) -> (r: u32)
    requires
        at + 4 <= data@.len(),
    ensures
        r == read_le32(data@[at as int], data@[at + 1], data@[at + 2], data@[at + 3]),
{
    data[at] as u32 + 256 * (data[at + 1] as u32) + 65536 * (data[at + 2] as u32) + 16777216 * (
    data[at + 3] as u32)
}

/// Copies `data[from..to]` into a new vector.
pub fn slice_to_vec(data: &[u8], from: usize, to: usize) -> (r: Vec<u8>)
    requires
        from <= to <= data@.len(),
    ensures
        r@ == data@.subrange(from as int, to as int),
{
    let mut r: Vec<u8> = Vec::new();
    let mut i: usize = from;
    while i < to
        invariant
            from <= i <= to,
            to <= data@.len(),
            r@ == data@.subrange(from as int, i as int),
        decreases to - i,
    {
        r.push(data[i]);
        i = i + 1;
        assert(r@ =~= data@.subrange(from as int, i as int));
    }
    r
}

} // verus!
