use vstd::prelude::*;

verus! {

/// The 16-bit value that two bytes spell, least significant byte first.
pub open spec fn le_u16(b: Seq<u8>) -> u16 {
    (b[0] as int + 256 * (b[1] as int)) as u16
}

/// The 32-bit value that four bytes spell, least significant byte first.
pub open spec fn le_u32(b: Seq<u8>) -> u32 {
    (b[0] as int + 256 * (b[1] as int + 256 * (b[2] as int + 256 * (b[3] as int)))) as u32
}

/// The 64-bit value that eight bytes spell, least significant byte first.
pub open spec fn le_u64(b: Seq<u8>) -> u64 {
    (b[0] as int + 256 * (b[1] as int + 256 * (b[2] as int + 256 * (b[3] as int + 256 * (b[4] as int
        + 256 * (b[5] as int + 256 * (b[6] as int + 256 * (b[7] as int)))))))) as u64
}

/// The two bytes of a 16-bit value, least significant first.
pub open spec fn u16_le(v: u16) -> Seq<u8> {
    seq![(v % 256) as u8, (v / 256) as u8]
}

/// The four bytes of a 32-bit value, least significant first.
pub open spec fn u32_le(v: u32) -> Seq<u8> {
    seq![
        (v % 256) as u8,
        (v / 256 % 256) as u8,
        (v / 256 / 256 % 256) as u8,
        (v / 256 / 256 / 256) as u8,
    ]
}

/// The eight bytes of a 64-bit value, least significant first.
pub open spec fn u64_le(v: u64) -> Seq<u8> {
    seq![
        (v % 256) as u8,
        (v / 256 % 256) as u8,
        (v / 256 / 256 % 256) as u8,
        (v / 256 / 256 / 256 % 256) as u8,
        (v / 256 / 256 / 256 / 256 % 256) as u8,
        (v / 256 / 256 / 256 / 256 / 256 % 256) as u8,
        (v / 256 / 256 / 256 / 256 / 256 / 256 % 256) as u8,
        (v / 256 / 256 / 256 / 256 / 256 / 256 / 256) as u8,
    ]
}

/// Two bytes in the opposite order.
pub open spec fn swap2(b: Seq<u8>) -> Seq<u8> {
    seq![b[1], b[0]]
}

/// Four bytes in the opposite order.
pub open spec fn swap4(b: Seq<u8>) -> Seq<u8> {
    seq![b[3], b[2], b[1], b[0]]
}

/// Eight bytes in the opposite order.
pub open spec fn swap8(b: Seq<u8>) -> Seq<u8> {
    seq![b[7], b[6], b[5], b[4], b[3], b[2], b[1], b[0]]
}

/// The signed 32-bit value with the given two's-complement bit pattern.
pub open spec fn i32_of_bits(u: u32) -> i32 {
    if u < 0x8000_0000 {
        u as i32
    } else {
        (u - 0x1_0000_0000) as i32
    }
}

/// The two's-complement bit pattern of a signed 32-bit value.
pub open spec fn bits_of_i32(v: i32) -> u32 {
    if v >= 0 {
        v as u32
    } else {
        (v + 0x1_0000_0000) as u32
    }
}

/// The signed 64-bit value with the given two's-complement bit pattern.
pub open spec fn i64_of_bits(u: u64) -> i64 {
    if u < 0x8000_0000_0000_0000 {
        u as i64
    } else {
        (u - 0x1_0000_0000_0000_0000) as i64
    }
}

/// The two's-complement bit pattern of a signed 64-bit value.
pub open spec fn bits_of_i64(v: i64) -> u64 {
    if v >= 0 {
        v as u64
    } else {
        (v + 0x1_0000_0000_0000_0000) as u64
    }
}

/// Reads two bytes as a little-endian 16-bit value.
pub fn read_le_u16(b: &[u8]) -> (v: u16)
    requires
        b@.len() == 2,
    ensures
        v == le_u16(b@),
{
    (b[0] as u16) + 256 * (b[1] as u16)
}

/// Reads four bytes as a little-endian 32-bit value.
pub fn read_le_u32(b: &[u8]) -> (v: u32)
    requires
        b@.len() == 4,
    ensures
        v == le_u32(b@),
{
    (b[0] as u32) + 256 * ((b[1] as u32) + 256 * ((b[2] as u32) + 256 * (b[3] as u32)))
}

/// Reads eight bytes as a little-endian 64-bit value.
pub fn read_le_u64(b: &[u8]) -> (v: u64)
    requires
        b@.len() == 8,
    ensures
        v == le_u64(b@),
{
    let hi: u64 = (b[4] as u64) + 256 * ((b[5] as u64) + 256 * ((b[6] as u64) + 256 * (b[7] as u64)));
    (b[0] as u64) + 256 * ((b[1] as u64) + 256 * ((b[2] as u64) + 256 * ((b[3] as u64) + 256 * hi)))
}

/// Reads two bytes as a big-endian 16-bit value.
pub fn read_be_u16(b: &[u8]) -> (v: u16)
    requires
        b@.len() == 2,
    ensures
        v == le_u16(swap2(b@)),
{
    (b[1] as u16) + 256 * (b[0] as u16)
}

/// Reads four bytes as a big-endian 32-bit value.
pub fn read_be_u32(b: &[u8]) -> (v: u32)
    requires
        b@.len() == 4,
    ensures
        v == le_u32(swap4(b@)),
{
    (b[3] as u32) + 256 * ((b[2] as u32) + 256 * ((b[1] as u32) + 256 * (b[0] as u32)))
}

/// Reads eight bytes as a big-endian 64-bit value.
pub fn read_be_u64(b: &[u8]) -> (v: u64)
    requires
        b@.len() == 8,
    ensures
        v == le_u64(swap8(b@)),
{
    let hi: u64 = (b[3] as u64) + 256 * ((b[2] as u64) + 256 * ((b[1] as u64) + 256 * (b[0] as u64)));
    (b[7] as u64) + 256 * ((b[6] as u64) + 256 * ((b[5] as u64) + 256 * ((b[4] as u64) + 256 * hi)))
}

/// Writes a 16-bit value as two little-endian bytes.
pub fn write_le_u16(v: u16) -> (out: Vec<u8>)
    ensures
        out@ == u16_le(v),
{
    let mut out: Vec<u8> = Vec::new();
    out.push((v % 256) as u8);
    out.push((v / 256) as u8);
    assert(out@ =~= u16_le(v));
    out
}

/// Writes a 32-bit value as four little-endian bytes.
pub fn write_le_u32(v: u32) -> (out: Vec<u8>)
    ensures
        out@ == u32_le(v),
{
    let mut out: Vec<u8> = Vec::new();
    out.push((v % 256) as u8);
    out.push((v / 256 % 256) as u8);
    out.push((v / 256 / 256 % 256) as u8);
    out.push((v / 256 / 256 / 256) as u8);
    assert(out@ =~= u32_le(v));
    out
}

/// Writes a 64-bit value as eight little-endian bytes.
pub fn write_le_u64(v: u64) -> (out: Vec<u8>)
    ensures
        out@ == u64_le(v),
{
    let mut out: Vec<u8> = Vec::new();
    out.push((v % 256) as u8);
    out.push((v / 256 % 256) as u8);
    out.push((v / 256 / 256 % 256) as u8);
    out.push((v / 256 / 256 / 256 % 256) as u8);
    out.push((v / 256 / 256 / 256 / 256 % 256) as u8);
    out.push((v / 256 / 256 / 256 / 256 / 256 % 256) as u8);
    out.push((v / 256 / 256 / 256 / 256 / 256 / 256 % 256) as u8);
    out.push((v / 256 / 256 / 256 / 256 / 256 / 256 / 256) as u8);
    assert(out@ =~= u64_le(v));
    out
}

/// The same bytes in the opposite order.
pub fn reversed(b: Vec<u8>) -> (out: Vec<u8>)
    ensures
        out@.len() == b@.len(),
        forall|i: int| 0 <= i < b@.len() ==> out@[i] == b@[b@.len() - 1 - i],
{
    let mut out: Vec<u8> = Vec::new();
    let n: usize = b.len();
    let mut i: usize = 0;
    while i < n
        invariant
            n == b@.len(),
            i <= n,
            out@.len() == i,
            forall|k: int| 0 <= k < i ==> out@[k] == b@[n - 1 - k],
        decreases n - i,
    {
        out.push(b[n - 1 - i]);
        i = i + 1;
    }
    out
}

/// Reinterprets a 32-bit pattern as a signed value.
pub fn signed32(u: u32) -> (v: i32)
    ensures
        v == i32_of_bits(u),
{
    if u < 0x8000_0000 {
        u as i32
    } else {
        ((u - 0x8000_0000) as i32) + i32::MIN
    }
}

/// The bit pattern of a signed 32-bit value.
pub fn unsigned32(v: i32) -> (u: u32)
    ensures
        u == bits_of_i32(v),
{
    if v >= 0 {
        v as u32
    } else {
        ((v - i32::MIN) as u32) + 0x8000_0000
    }
}

/// Reinterprets a 64-bit pattern as a signed value.
pub fn signed64(u: u64) -> (v: i64)
    ensures
        v == i64_of_bits(u),
{
    if u < 0x8000_0000_0000_0000 {
        u as i64
    } else {
        ((u - 0x8000_0000_0000_0000) as i64) + i64::MIN
    }
}

/// The bit pattern of a signed 64-bit value.
pub fn unsigned64(v: i64) -> (u: u64)
    ensures
        u == bits_of_i64(v),
{
    if v >= 0 {
        v as u64
    } else {
        ((v - i64::MIN) as u64) + 0x8000_0000_0000_0000
    }
}

/// Reading back the little-endian bytes of a 16-bit value gives the value,
/// and the bytes read give back themselves.
pub proof fn lemma_u16_le_roundtrip(v: u16)
    ensures
        u16_le(v).len() == 2,
        le_u16(u16_le(v)) == v,
        swap2(swap2(u16_le(v))) =~= u16_le(v),
{
}

/// Reading back the little-endian bytes of a 32-bit value gives the value.
pub proof fn lemma_u32_le_roundtrip(v: u32)
    ensures
        u32_le(v).len() == 4,
        le_u32(u32_le(v)) == v,
        swap4(swap4(u32_le(v))) =~= u32_le(v),
{
}

/// Reading back the little-endian bytes of a 64-bit value gives the value.
pub proof fn lemma_u64_le_roundtrip(v: u64)
    ensures
        u64_le(v).len() == 8,
        le_u64(u64_le(v)) == v,
        swap8(swap8(u64_le(v))) =~= u64_le(v),
{
}

/// A signed value and its bit pattern determine each other.
pub proof fn lemma_bits_roundtrip(a: i32, b: i64)
    ensures
        i32_of_bits(bits_of_i32(a)) == a,
        i64_of_bits(bits_of_i64(b)) == b,
{
}

} // verus!
