use vstd::prelude::*;
use rand::Rng;
use std::time::Duration;
use std::time::SystemTime;
use vstd::slice::slice_subrange;
use vstd::slice::slice_to_vec;
use crate::endian::bits_of_i32;
use crate::endian::bits_of_i64;
use crate::endian::i32_of_bits;
use crate::endian::i64_of_bits;
use crate::endian::le_u16;
use crate::endian::le_u32;
use crate::endian::le_u64;
use crate::endian::lemma_u16_le_roundtrip;
use crate::endian::lemma_u32_le_roundtrip;
use crate::endian::lemma_u64_le_roundtrip;
use crate::endian::read_be_u16;
use crate::endian::read_be_u32;
use crate::endian::read_be_u64;
use crate::endian::read_le_u16;
use crate::endian::read_le_u32;
use crate::endian::read_le_u64;
use crate::endian::reversed;
use crate::endian::signed32;
use crate::endian::signed64;
use crate::endian::swap2;
use crate::endian::swap4;
use crate::endian::swap8;
use crate::endian::u16_le;
use crate::endian::u32_le;
use crate::endian::u64_le;
use crate::endian::unsigned32;
use crate::endian::unsigned64;
use crate::endian::write_le_u16;
use crate::endian::write_le_u32;
use crate::endian::write_le_u64;
use crate::error::ProtocolError;

verus! {

/// Takes the first `size` bytes off `buff`: the bytes taken and a copy of
/// what is left. Every field read of the codec goes through here, so a
/// short buffer always surfaces as `TruncatedInput`.
pub fn read_drop_slice(buff: &Vec<u8>, size: usize) -> (r: Result<(&[u8], Vec<u8>), ProtocolError>)
    ensures
        r is Ok <==> buff@.len() >= size,
        r is Err ==> r->Err_0 == ProtocolError::TruncatedInput,
        r is Ok ==> ({
            let (head, rest) = r->Ok_0;
            &&& head@ == buff@.subrange(0, size as int)
            &&& rest@ == buff@.subrange(size as int, buff@.len() as int)
            &&& head@.len() == size
            &&& head@ + rest@ == buff@
        }),
{
    if buff.len() >= size {
        let all = buff.as_slice();
        let head = slice_subrange(all, 0, size);
        let rest = slice_to_vec(slice_subrange(all, size, buff.len()));
        assert(head@ + rest@ =~= buff@);
        Ok((head, rest))
    } else {
        Err(ProtocolError::TruncatedInput)
    }
}


/// A fixed-width integer that can be read from its big-endian or
/// little-endian bytes.
pub trait FromEndian: Sized {
    /// How many bytes the type occupies on the wire.
    spec fn width() -> nat;

    /// The value that `bytes` spell, most significant byte first.
    spec fn be_value(bytes: Seq<u8>) -> Self;

    /// The value that `bytes` spell, least significant byte first.
    spec fn le_value(bytes: Seq<u8>) -> Self;

    /// The width as a machine integer.
    fn byte_width() -> (n: usize)
        ensures
            n == Self::width(),
    ;

    /// Reads a value from exactly `width()` big-endian bytes.
    fn from_be(msg: &[u8]) -> (r: Self)
        requires
            msg@.len() == Self::width(),
        ensures
            r == Self::be_value(msg@),
    ;

    /// Reads a value from exactly `width()` little-endian bytes.
    fn from_le(msg: &[u8]) -> (r: Self)
        requires
            msg@.len() == Self::width(),
        ensures
            r == Self::le_value(msg@),
    ;
}

/// A fixed-width integer that can be written as big-endian or
/// little-endian bytes, and read back unchanged.
pub trait ToEndian: FromEndian {
    /// The bytes of the value, most significant first.
    spec fn be_bytes(self) -> Seq<u8>;

    /// The bytes of the value, least significant first.
    spec fn le_bytes(self) -> Seq<u8>;

    /// Writes the value as `width()` big-endian bytes.
    fn to_big_endian(&self) -> (out: Vec<u8>)
        ensures
            out@ == self.be_bytes(),
    ;

    /// Writes the value as `width()` little-endian bytes.
    fn to_little_endian(&self) -> (out: Vec<u8>)
        ensures
            out@ == self.le_bytes(),
    ;

    /// Both encodings have exactly `width()` bytes, and decoding either
    /// gives the value back.
    proof fn lemma_roundtrip(v: Self)
        ensures
            v.be_bytes().len() == Self::width(),
            v.le_bytes().len() == Self::width(),
            Self::be_value(v.be_bytes()) == v,
            Self::le_value(v.le_bytes()) == v,
    ;
}

impl FromEndian for i32 {
    open spec fn width() -> nat {
        4
    }

    open spec fn be_value(bytes: Seq<u8>) -> Self {
        i32_of_bits(le_u32(swap4(bytes)))
    }

    open spec fn le_value(bytes: Seq<u8>) -> Self {
        i32_of_bits(le_u32(bytes))
    }

    fn byte_width() -> (n: usize) {
        4
    }

    fn from_be(msg: &[u8]) -> (r: Self) {
        signed32(read_be_u32(msg))
    }

    fn from_le(msg: &[u8]) -> (r: Self) {
        signed32(read_le_u32(msg))
    }
}

impl ToEndian for i32 {
    open spec fn be_bytes(self) -> Seq<u8> {
        swap4(u32_le(bits_of_i32(self)))
    }

    open spec fn le_bytes(self) -> Seq<u8> {
        u32_le(bits_of_i32(self))
    }

    fn to_big_endian(&self) -> (out: Vec<u8>) {
        let out = reversed(write_le_u32(unsigned32(*self)));
        assert(out@ =~= self.be_bytes());
        out
    }

    fn to_little_endian(&self) -> (out: Vec<u8>) {
        write_le_u32(unsigned32(*self))
    }

    proof fn lemma_roundtrip(v: Self) {
        lemma_u32_le_roundtrip(bits_of_i32(v));
        assert(swap4(v.be_bytes()) =~= v.le_bytes());
    }
}

impl FromEndian for i64 {
    open spec fn width() -> nat {
        8
    }

    open spec fn be_value(bytes: Seq<u8>) -> Self {
        i64_of_bits(le_u64(swap8(bytes)))
    }

    open spec fn le_value(bytes: Seq<u8>) -> Self {
        i64_of_bits(le_u64(bytes))
    }

    fn byte_width() -> (n: usize) {
        8
    }

    fn from_be(msg: &[u8]) -> (r: Self) {
        signed64(read_be_u64(msg))
    }

    fn from_le(msg: &[u8]) -> (r: Self) {
        signed64(read_le_u64(msg))
    }
}

impl ToEndian for i64 {
    open spec fn be_bytes(self) -> Seq<u8> {
        swap8(u64_le(bits_of_i64(self)))
    }

    open spec fn le_bytes(self) -> Seq<u8> {
        u64_le(bits_of_i64(self))
    }

    fn to_big_endian(&self) -> (out: Vec<u8>) {
        let out = reversed(write_le_u64(unsigned64(*self)));
        assert(out@ =~= self.be_bytes());
        out
    }

    fn to_little_endian(&self) -> (out: Vec<u8>) {
        write_le_u64(unsigned64(*self))
    }

    proof fn lemma_roundtrip(v: Self) {
        lemma_u64_le_roundtrip(bits_of_i64(v));
        assert(swap8(v.be_bytes()) =~= v.le_bytes());
    }
}

impl FromEndian for u16 {
    open spec fn width() -> nat {
        2
    }

    open spec fn be_value(bytes: Seq<u8>) -> Self {
        le_u16(swap2(bytes))
    }

    open spec fn le_value(bytes: Seq<u8>) -> Self {
        le_u16(bytes)
    }

    fn byte_width() -> (n: usize) {
        2
    }

    fn from_be(msg: &[u8]) -> (r: Self) {
        read_be_u16(msg)
    }

    fn from_le(msg: &[u8]) -> (r: Self) {
        read_le_u16(msg)
    }
}

impl ToEndian for u16 {
    open spec fn be_bytes(self) -> Seq<u8> {
        swap2(u16_le(self))
    }

    open spec fn le_bytes(self) -> Seq<u8> {
        u16_le(self)
    }

    fn to_big_endian(&self) -> (out: Vec<u8>) {
        let out = reversed(write_le_u16(*self));
        assert(out@ =~= self.be_bytes());
        out
    }

    fn to_little_endian(&self) -> (out: Vec<u8>) {
        write_le_u16(*self)
    }

    proof fn lemma_roundtrip(v: Self) {
        lemma_u16_le_roundtrip(v);
        assert(swap2(v.be_bytes()) =~= v.le_bytes());
    }
}

impl FromEndian for u32 {
    open spec fn width() -> nat {
        4
    }

    open spec fn be_value(bytes: Seq<u8>) -> Self {
        le_u32(swap4(bytes))
    }

    open spec fn le_value(bytes: Seq<u8>) -> Self {
        le_u32(bytes)
    }

    fn byte_width() -> (n: usize) {
        4
    }

    fn from_be(msg: &[u8]) -> (r: Self) {
        read_be_u32(msg)
    }

    fn from_le(msg: &[u8]) -> (r: Self) {
        read_le_u32(msg)
    }
}

impl ToEndian for u32 {
    open spec fn be_bytes(self) -> Seq<u8> {
        swap4(u32_le(self))
    }

    open spec fn le_bytes(self) -> Seq<u8> {
        u32_le(self)
    }

    fn to_big_endian(&self) -> (out: Vec<u8>) {
        let out = reversed(write_le_u32(*self));
        assert(out@ =~= self.be_bytes());
        out
    }

    fn to_little_endian(&self) -> (out: Vec<u8>) {
        write_le_u32(*self)
    }

    proof fn lemma_roundtrip(v: Self) {
        lemma_u32_le_roundtrip(v);
        assert(swap4(v.be_bytes()) =~= v.le_bytes());
    }
}

impl FromEndian for u64 {
    open spec fn width() -> nat {
        8
    }

    open spec fn be_value(bytes: Seq<u8>) -> Self {
        le_u64(swap8(bytes))
    }

    open spec fn le_value(bytes: Seq<u8>) -> Self {
        le_u64(bytes)
    }

    fn byte_width() -> (n: usize) {
        8
    }

    fn from_be(msg: &[u8]) -> (r: Self) {
        read_be_u64(msg)
    }

    fn from_le(msg: &[u8]) -> (r: Self) {
        read_le_u64(msg)
    }
}

impl ToEndian for u64 {
    open spec fn be_bytes(self) -> Seq<u8> {
        swap8(u64_le(self))
    }

    open spec fn le_bytes(self) -> Seq<u8> {
        u64_le(self)
    }

    fn to_big_endian(&self) -> (out: Vec<u8>) {
        let out = reversed(write_le_u64(*self));
        assert(out@ =~= self.be_bytes());
        out
    }

    fn to_little_endian(&self) -> (out: Vec<u8>) {
        write_le_u64(*self)
    }

    proof fn lemma_roundtrip(v: Self) {
        lemma_u64_le_roundtrip(v);
        assert(swap8(v.be_bytes()) =~= v.le_bytes());
    }
}

/// Reads one big-endian integer off the front of `buff`: the value and a
/// copy of the bytes behind it.
pub fn parse_frombytes_be<T>(buff: &Vec<u8>) -> (r: Result<(T, Vec<u8>), ProtocolError>) where
    T: FromEndian + Sized,

    ensures
        r is Ok <==> buff@.len() >= T::width(),
        r is Err ==> r->Err_0 == ProtocolError::TruncatedInput,
        r is Ok ==> r->Ok_0.0 == T::be_value(buff@.subrange(0, T::width() as int)),
        r is Ok ==> r->Ok_0.1@ == buff@.subrange(T::width() as int, buff@.len() as int),
{
    let size = T::byte_width();
    match read_drop_slice(buff, size) {
        Ok((res, remaining)) => Ok((T::from_be(res), remaining)),
        Err(e) => Err(e),
    }
}

/// Reads one little-endian integer off the front of `buff`: the value and
/// a copy of the bytes behind it.
pub fn parse_frombytes_le<T>(buff: &Vec<u8>) -> (r: Result<(T, Vec<u8>), ProtocolError>) where
    T: FromEndian + Sized,

    ensures
        r is Ok <==> buff@.len() >= T::width(),
        r is Err ==> r->Err_0 == ProtocolError::TruncatedInput,
        r is Ok ==> r->Ok_0.0 == T::le_value(buff@.subrange(0, T::width() as int)),
        r is Ok ==> r->Ok_0.1@ == buff@.subrange(T::width() as int, buff@.len() as int),
{
    let size = T::byte_width();
    match read_drop_slice(buff, size) {
        Ok((res, remaining)) => Ok((T::from_le(res), remaining)),
        Err(e) => Err(e),
    }
}


/// The system clock's reading type, carried through as an opaque value.
#[verifier::external_type_specification]
#[verifier::external_body]
pub struct ExSystemTime(std::time::SystemTime);

/// `SystemTime::now`: the current reading of the system clock. Nothing is
/// claimed of the reading.
#[verifier::external_body]
fn clock_reading() -> (now: SystemTime) {
    SystemTime::now()
}

/// `SystemTime::duration_since` against `UNIX_EPOCH`: the time elapsed
/// since the epoch, or `None` where the reading lies before it. Nothing is
/// claimed of which of the two comes back.
#[verifier::external_body]
fn elapsed_since_epoch(reading: &SystemTime) -> (elapsed: Option<Duration>) {
    reading.duration_since(std::time::UNIX_EPOCH).ok()
}

/// `Duration::as_secs`: the whole seconds of a duration. Nothing is
/// claimed of the number.
#[verifier::external_body]
fn whole_seconds(elapsed: &Duration) -> (secs: u64) {
    elapsed.as_secs()
}

/// The timestamp that stands for an elapsed number of seconds, where
/// there is one: the same number, as long as it fits a signed 64-bit field.
pub open spec fn timestamp_of(elapsed: Option<u64>) -> Option<i64> {
    match elapsed {
        Some(secs) if secs <= i64::MAX => Some(secs as i64),
        _ => None,
    }
}

/// Turns the seconds elapsed since the epoch into a wire timestamp.
/// `None` where the clock stood before the epoch or the count does not
/// fit the field.
pub fn timestamp_from_seconds(elapsed: Option<u64>) -> (t: Option<i64>)
    ensures
        t == timestamp_of(elapsed),
{
    match elapsed {
        Some(secs) => {
            if secs <= 0x7fff_ffff_ffff_ffff {
                Some(secs as i64)
            } else {
                None
            }
        },
        None => None,
    }
}

/// The current time in whole seconds since the Unix epoch, or `None`
/// where the system clock stands before the epoch. Whatever the clock
/// says, a timestamp that comes back is not negative.
pub fn calculate_timestamp() -> (t: Option<i64>)
    ensures
        t matches Some(secs) ==> secs >= 0,
{
    let reading = clock_reading();
    let elapsed = match elapsed_since_epoch(&reading) {
        Some(d) => Some(whole_seconds(&d)),
        None => None,
    };
    timestamp_from_seconds(elapsed)
}

/// A fresh 64-bit nonce from `rand::thread_rng`, drawn with `Rng::gen`.
/// Any value can come back, so nothing is claimed of it. The generator
/// aborts the thread if the operating system cannot seed it.
#[verifier::external_body]
pub fn generate_random_nonce() -> (nonce: u64) {
    rand::thread_rng().gen::<u64>()
}

/// Service bit of a full node that serves the whole block chain.
pub const NODE_NETWORK: i32 = 0x1;

/// The 64-bit mask that holds the bits of a service flag, sign-extended.
pub open spec fn service_mask(flag: i32) -> u64 {
    if flag >= 0 {
        flag as u64
    } else {
        (flag + 0x1_0000_0000_0000_0000) as u64
    }
}

/// The service bitmask that advertises the given capability flag: the
/// flag's bits set in an otherwise empty 64-bit mask.
pub fn nodenetwork_bitmask(node_net: &i32) -> (mask: u64)
    ensures
        mask == service_mask(*node_net),
{
    let flag: i32 = *node_net;
    if flag >= 0 {
        flag as u64
    } else {
        u64::MAX - ((-(flag + 1)) as u64)
    }
}

} // verus!
