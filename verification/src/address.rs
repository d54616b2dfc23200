use vstd::prelude::*;
use crate::endian::le_u16;
use crate::endian::le_u32;
use crate::endian::read_be_u32;
use crate::endian::swap2;
use crate::endian::swap4;
use crate::endian::u16_le;
use crate::endian::u32_le;
use crate::endian::u64_le;
use crate::error::ProtocolError;
use crate::utils::parse_frombytes_be;
use crate::utils::parse_frombytes_le;
use crate::utils::read_drop_slice;
use crate::utils::ToEndian;

verus! {

/// An IPv4 address with a port. The address is held as the 32-bit number
/// whose big-endian bytes are the four octets, so `127.0.0.1` is
/// `0x7f00_0001`.
#[derive(Clone, Copy, Debug, PartialEq, Eq, Structural)]
pub struct SocketAddress {
    pub ip: u32,
    pub port: u16,
}

/// Bytes on the wire of one network address.
pub const NETADDR_LEN: usize = 26;

/// The four octets of an address, first octet first.
pub open spec fn octets_of(ip: u32) -> Seq<u8> {
    swap4(u32_le(ip))
}

/// The twelve bytes that precede the octets of an IPv4 address mapped
/// into IPv6.
pub open spec fn mapped_prefix() -> Seq<u8> {
    seq![0u8, 0u8, 0u8, 0u8, 0u8, 0u8, 0u8, 0u8, 0u8, 0u8, 0xffu8, 0xffu8]
}

/// The 16-byte IPv4-mapped IPv6 form of an address.
pub open spec fn mapped_ipv6(ip: u32) -> Seq<u8> {
    mapped_prefix() + octets_of(ip)
}

/// The wire form of a network address: service mask (little-endian),
/// IPv4-mapped address, port (big-endian).
pub open spec fn netaddr_bytes(mask: u64, addr: SocketAddress) -> Seq<u8> {
    u64_le(mask) + mapped_ipv6(addr.ip) + swap2(u16_le(addr.port))
}

/// What decoding a network address off the front of `b` gives. The
/// service mask is read and dropped.
pub open spec fn netaddr_parse(b: Seq<u8>) -> Result<SocketAddress, ProtocolError> {
    if b.len() < 26 {
        Err(ProtocolError::TruncatedInput)
    } else if b.subrange(8, 20) != mapped_prefix() {
        Err(ProtocolError::InvalidAddressFamily)
    } else {
        Ok(
            SocketAddress {
                ip: le_u32(swap4(b.subrange(20, 24))),
                port: le_u16(swap2(b.subrange(24, 26))),
            },
        )
    }
}

impl SocketAddress {
    /// The address with the given octets and port.
    pub fn from_octets(octets: [u8; 4], port: u16) -> (addr: Self)
        ensures
            addr.ip == le_u32(swap4(octets@)),
            addr.port == port,
            octets_of(addr.ip) == octets@,
    {
        let ip = read_be_u32(octets.as_slice());
        assert(octets_of(ip) =~= octets@);
        SocketAddress { ip, port }
    }

    /// The four octets of the address, first octet first.
    pub fn octets(&self) -> (out: Vec<u8>)
        ensures
            out@ == octets_of(self.ip),
    {
        self.ip.to_big_endian()
    }
}

/// Whether twelve bytes are the IPv4-mapped prefix.
fn is_mapped_prefix(lead: &[u8]) -> (yes: bool)
    requires
        lead@.len() == 12,
    ensures
        yes <==> lead@ == mapped_prefix(),
{
    let mut i: usize = 0;
    while i < 12
        invariant
            i <= 12,
            lead@.len() == 12,
            forall|k: int| 0 <= k < i ==> lead@[k] == mapped_prefix()[k],
        decreases 12 - i,
    {
        let want: u8 = if i < 10 { 0 } else { 0xff };
        if lead[i] != want {
            assert(lead@[i as int] != mapped_prefix()[i as int]);
            return false;
        }
        i = i + 1;
    }
    assert(lead@ =~= mapped_prefix());
    true
}

/// Encodes a service mask and an address as the 26 wire bytes.
pub fn encode_netaddr(mask: u64, address: &SocketAddress) -> (out: Vec<u8>)
    ensures
        out@ == netaddr_bytes(mask, *address),
        out@.len() == 26,
{
    let mut buffer: Vec<u8> = Vec::new();
    let mut mask_bytes = mask.to_little_endian();
    buffer.append(&mut mask_bytes);
    let mut i: usize = 0;
    while i < 12
        invariant
            i <= 12,
            buffer@ == u64_le(mask) + mapped_prefix().subrange(0, i as int),
        decreases 12 - i,
    {
        let byte: u8 = if i < 10 { 0 } else { 0xff };
        buffer.push(byte);
        assert(buffer@ =~= u64_le(mask) + mapped_prefix().subrange(0, i + 1));
        i = i + 1;
    }
    let mut ip_bytes = address.ip.to_big_endian();
    buffer.append(&mut ip_bytes);
    let mut port_bytes = address.port.to_big_endian();
    buffer.append(&mut port_bytes);
    assert(buffer@ =~= netaddr_bytes(mask, *address));
    buffer
}

/// Decodes the network address at the front of `buff`.
pub fn decode_netaddr(buff: &Vec<u8>) -> (r: Result<SocketAddress, ProtocolError>)
    ensures
        r == netaddr_parse(buff@),
{
    let (_, rest) = match parse_frombytes_le::<u64>(buff) {
        Ok(p) => p,
        Err(e) => { return Err(e); },
    };
    let (ip_field, rest2) = match read_drop_slice(&rest, 16) {
        Ok(p) => p,
        Err(e) => { return Err(e); },
    };
    let (port, _) = match parse_frombytes_be::<u16>(&rest2) {
        Ok(p) => p,
        Err(e) => { return Err(e); },
    };
    let lead = vstd::slice::slice_subrange(ip_field, 0, 12);
    assert(lead@ =~= buff@.subrange(8, 20));
    if !is_mapped_prefix(lead) {
        return Err(ProtocolError::InvalidAddressFamily);
    }
    let tail = vstd::slice::slice_subrange(ip_field, 12, 16);
    assert(tail@ =~= buff@.subrange(20, 24));
    assert(rest2@.subrange(0, 2) =~= buff@.subrange(24, 26));
    let ip = read_be_u32(tail);
    Ok(SocketAddress { ip, port })
}

/// Decoding an encoded address gives back the address and the port,
/// whatever the service mask.
pub proof fn lemma_netaddr_roundtrip(mask: u64, addr: SocketAddress)
    ensures
        netaddr_bytes(mask, addr).len() == 26,
        netaddr_parse(netaddr_bytes(mask, addr)) == Ok::<SocketAddress, ProtocolError>(addr),
{
    let b = netaddr_bytes(mask, addr);
    assert(b.subrange(8, 20) =~= mapped_prefix());
    assert(b.subrange(20, 24) =~= octets_of(addr.ip));
    assert(b.subrange(24, 26) =~= swap2(u16_le(addr.port)));
    <u32 as ToEndian>::lemma_roundtrip(addr.ip);
    <u16 as ToEndian>::lemma_roundtrip(addr.port);
}

} // verus!
