use vstd::prelude::*;
use crate::address::encode_netaddr;
use crate::address::decode_netaddr;
use crate::address::lemma_netaddr_roundtrip;
use crate::address::netaddr_bytes;
use crate::address::netaddr_parse;
use crate::address::SocketAddress;
use crate::checksum::checksum;
use crate::checksum::double_sha256;
use crate::endian::le_u64;
use crate::endian::u64_le;
use crate::error::ProtocolError;
use crate::utils::calculate_timestamp;
use crate::utils::generate_random_nonce;
use crate::utils::nodenetwork_bitmask;
use crate::utils::parse_frombytes_le;
use crate::utils::read_drop_slice;
use crate::utils::service_mask;
use crate::utils::FromEndian;
use crate::utils::ToEndian;
use crate::utils::NODE_NETWORK;

verus! {

/// A message body that is sent as the payload of a frame.
pub trait RawMessage: View + Sized {
    /// The payload bytes that stand for a message.
    spec fn wire(m: Self::V) -> Seq<u8>;

    /// What reading a message from payload bytes gives.
    spec fn parse(msg: Seq<u8>) -> Result<Self::V, ProtocolError>;

    /// Encodes the message as payload bytes. Encoding never fails.
    fn to_rawmessage(&self) -> (r: Result<Vec<u8>, ProtocolError>)
        ensures
            r is Ok,
            r->Ok_0@ == Self::wire(self@),
    ;

    /// Decodes a message from payload bytes.
    fn from_rawmessage(msg: &Vec<u8>) -> (r: Result<Box<Self>, ProtocolError>)
        ensures
            match Self::parse(msg@) {
                Ok(m) => r is Ok && (*r->Ok_0)@ == m,
                Err(e) => r is Err && r->Err_0 == e,
            },
    ;
}

/// A message that can hand out its payload bytes directly.
pub trait ProtocolMessage: RawMessage {
    /// The payload bytes of the message.
    fn to_bytes(&self) -> (out: Vec<u8>)
        ensures
            out@ == Self::wire(self@),
    ;
}

/// A message kind with a fixed 12-byte command name.
pub trait CommandMessage {
    /// The command name: ASCII, padded with zero bytes.
    const COMMAND: [u8; 12];
}

/// Encoding and decoding of the network address embedded in a payload.
pub trait NetworkAddress {
    /// Encodes a service mask and an address as the 26 wire bytes.
    fn netaddr_as_bytes(node_bitmask: &u64, address: &SocketAddress) -> (out: Vec<u8>)
        ensures
            out@ == netaddr_bytes(*node_bitmask, *address),
    ;

    /// Decodes the network address at the front of `buff`, which is left
    /// as it was.
    fn netaddr_from_bytes(buff: &mut Vec<u8>) -> (r: Result<SocketAddress, ProtocolError>)
        ensures
            r == netaddr_parse(old(buff)@),
            final(buff)@ == old(buff)@,
    ;
}

/// A message whose payload has an integrity digest.
pub trait Checksum: RawMessage {
    /// The double-SHA-256 digest of the message's payload bytes.
    fn calculate_sha256(&self) -> (digest: [u8; 32])
        ensures
            digest@ == double_sha256(Self::wire(self@)),
    ;
}

/// The command name of a version message: `version`, zero-padded.
pub open spec fn version_command() -> Seq<u8> {
    seq![0x76u8, 0x65u8, 0x72u8, 0x73u8, 0x69u8, 0x6fu8, 0x6eu8, 0u8, 0u8, 0u8, 0u8, 0u8]
}

/// The command name of an acknowledgment: `verack`, zero-padded.
pub open spec fn verack_command() -> Seq<u8> {
    seq![0x76u8, 0x65u8, 0x72u8, 0x61u8, 0x63u8, 0x6bu8, 0u8, 0u8, 0u8, 0u8, 0u8, 0u8]
}

/// The command name of a version message as an array.
pub const VERSION_COMMAND: [u8; 12] = [0x76, 0x65, 0x72, 0x73, 0x69, 0x6f, 0x6e, 0, 0, 0, 0, 0];

/// The command name of an acknowledgment as an array.
pub const VERACK_COMMAND: [u8; 12] = [0x76, 0x65, 0x72, 0x61, 0x63, 0x6b, 0, 0, 0, 0, 0, 0];

/// Bytes of an encoded version payload.
pub const VERSION_PAYLOAD_LEN: usize = 86;

/// The first message of a handshake: who we are and whom we think we
/// are talking to.
#[derive(Debug)]
pub struct VersionMessage {
    pub protocol_version: i32,
    pub service: u64,
    pub timestamp: i64,
    pub addr_recv: SocketAddress,
    pub addr_from: SocketAddress,
    pub nonce: u64,
    pub user_agent: String,
    pub start_height: i32,
}

/// The mathematical content of a version message.
pub struct VersionFields {
    pub protocol_version: i32,
    pub service: u64,
    pub timestamp: i64,
    pub addr_recv: SocketAddress,
    pub addr_from: SocketAddress,
    pub nonce: u64,
    pub user_agent: Seq<char>,
    pub start_height: i32,
}

impl View for VersionMessage {
    type V = VersionFields;

    open spec fn view(&self) -> VersionFields {
        VersionFields {
            protocol_version: self.protocol_version,
            service: self.service,
            timestamp: self.timestamp,
            addr_recv: self.addr_recv,
            addr_from: self.addr_from,
            nonce: self.nonce,
            user_agent: self.user_agent@,
            start_height: self.start_height,
        }
    }
}

/// `n` zero bytes.
pub open spec fn zeros(n: nat) -> Seq<u8> {
    Seq::new(n, |i: int| 0u8)
}

/// The payload bytes of a version message, 86 in all: protocol version,
/// service mask, timestamp, receiver address, 26 zero bytes in place of
/// the sender address, nonce, a zero byte for the empty user agent, start
/// height, and a zero relay byte. Integers are little-endian. The service
/// mask, here and inside the receiver address, is that of `NODE_NETWORK`.
pub open spec fn version_bytes(m: VersionFields) -> Seq<u8> {
    m.protocol_version.le_bytes() + u64_le(service_mask(NODE_NETWORK)) + m.timestamp.le_bytes()
        + netaddr_bytes(service_mask(NODE_NETWORK), m.addr_recv) + zeros(26) + u64_le(m.nonce)
        + seq![0u8] + m.start_height.le_bytes() + seq![0u8]
}

/// The address that a decoded message reports for its sender, whose
/// field is not interpreted.
pub open spec fn unspecified_address() -> SocketAddress {
    SocketAddress { ip: 0, port: 0 }
}

/// What decoding a version payload gives. Protocol version, service
/// mask, timestamp, receiver address and nonce are read from their places
/// on the wire. The sender address is skipped; user agent, start height
/// and relay byte are not read, and the fields take fixed values.
pub open spec fn version_parse(b: Seq<u8>) -> Result<VersionFields, ProtocolError> {
    if b.len() < 20 {
        Err(ProtocolError::TruncatedInput)
    } else {
        match netaddr_parse(b.subrange(20, b.len() as int)) {
            Err(e) => Err(e),
            Ok(addr) => if b.len() < 80 {
                Err(ProtocolError::TruncatedInput)
            } else {
                Ok(
                    VersionFields {
                        protocol_version: i32::le_value(b.subrange(0, 4)),
                        service: le_u64(b.subrange(4, 12)),
                        timestamp: i64::le_value(b.subrange(12, 20)),
                        addr_recv: addr,
                        addr_from: unspecified_address(),
                        nonce: le_u64(b.subrange(72, 80)),
                        user_agent: Seq::empty(),
                        start_height: 1,
                    },
                )
            },
        }
    }
}

impl VersionMessage {
    /// A version message for a fresh handshake, with the given clock
    /// reading and nonce: service `NODE_NETWORK`, sender `127.0.0.1:8080`,
    /// empty user agent, start height 1.
    pub fn with_session(
        protocol_version: i32,
        addr_recv: SocketAddress,
        timestamp: i64,
        nonce: u64,
    ) -> (v: Self)
        ensures
            v@ == (VersionFields {
                protocol_version,
                service: 1,
                timestamp,
                addr_recv,
                addr_from: SocketAddress { ip: 0x7f00_0001, port: 8080 },
                nonce,
                user_agent: Seq::empty(),
                start_height: 1,
            }),
    {
        let v = VersionMessage {
            protocol_version,
            service: 1,
            timestamp,
            addr_recv,
            addr_from: SocketAddress { ip: 0x7f00_0001, port: 8080 },
            nonce,
            user_agent: String::new(),
            start_height: 1,
        };
        assert(v.user_agent@ =~= Seq::empty());
        v
    }

    /// A version message for a fresh handshake, stamped with the current
    /// time and a random nonce. `None` where the system clock stands
    /// before the Unix epoch.
    pub fn new(protocol_version: i32, addr_recv: SocketAddress) -> (r: Option<Self>)
        ensures
            r matches Some(v) ==> {
                &&& v.protocol_version == protocol_version
                &&& v.service == 1
                &&& v.timestamp >= 0
                &&& v.addr_recv == addr_recv
                &&& v.addr_from == (SocketAddress { ip: 0x7f00_0001, port: 8080 })
                &&& v.user_agent@ == Seq::<char>::empty()
                &&& v.start_height == 1
            },
    {
        let timestamp = calculate_timestamp();
        let nonce = generate_random_nonce();
        Self::stamped(protocol_version, addr_recv, timestamp, nonce)
    }

    /// A version message for a fresh handshake from what the clock and the
    /// nonce source gave: the message of `with_session` where the clock
    /// gave a timestamp, `None` where it gave none.
    pub fn stamped(
        protocol_version: i32,
        addr_recv: SocketAddress,
        timestamp: Option<i64>,
        nonce: u64,
    ) -> (r: Option<Self>)
        ensures
            r is Some <==> timestamp is Some,
            r matches Some(v) ==> v@ == (VersionFields {
                protocol_version,
                service: 1,
                timestamp: timestamp->Some_0,
                addr_recv,
                addr_from: SocketAddress { ip: 0x7f00_0001, port: 8080 },
                nonce,
                user_agent: Seq::empty(),
                start_height: 1,
            }),
    {
        match timestamp {
            Some(t) => Some(Self::with_session(protocol_version, addr_recv, t, nonce)),
            None => None,
        }
    }
}

impl RawMessage for VersionMessage {
    open spec fn wire(m: VersionFields) -> Seq<u8> {
        version_bytes(m)
    }

    open spec fn parse(msg: Seq<u8>) -> Result<VersionFields, ProtocolError> {
        version_parse(msg)
    }

    fn to_rawmessage(&self) -> (r: Result<Vec<u8>, ProtocolError>) {
        let svc_bitmask = nodenetwork_bitmask(&NODE_NETWORK);
        let mut address_bytes = Self::netaddr_as_bytes(&svc_bitmask, &self.addr_recv);

        let mut buffer: Vec<u8> = Vec::new();
        let mut field = self.protocol_version.to_little_endian();
        buffer.append(&mut field);
        let mut field = svc_bitmask.to_little_endian();
        buffer.append(&mut field);
        let mut field = self.timestamp.to_little_endian();
        buffer.append(&mut field);
        buffer.append(&mut address_bytes);
        let ghost head = buffer@;
        let mut i: usize = 0;
        while i < 26
            invariant
                i <= 26,
                buffer@ == head + zeros(i as nat),
            decreases 26 - i,
        {
            buffer.push(0);
            assert(buffer@ =~= head + zeros((i + 1) as nat));
            i = i + 1;
        }
        let mut field = self.nonce.to_little_endian();
        buffer.append(&mut field);
        buffer.push(0);
        let mut field = self.start_height.to_little_endian();
        buffer.append(&mut field);
        buffer.push(0);
        assert(buffer@ =~= version_bytes(self@));
        Ok(buffer)
    }

    fn from_rawmessage(msg: &Vec<u8>) -> (r: Result<Box<Self>, ProtocolError>) {
        let (protocol_version, buff) = match parse_frombytes_le::<i32>(msg) {
            Ok(p) => p,
            Err(e) => { return Err(e); },
        };
        let (service, buff) = match parse_frombytes_le::<u64>(&buff) {
            Ok(p) => p,
            Err(e) => { return Err(e); },
        };
        let (timestamp, buff) = match parse_frombytes_le::<i64>(&buff) {
            Ok(p) => p,
            Err(e) => { return Err(e); },
        };
        assert(buff@ =~= msg@.subrange(20, msg@.len() as int));
        let mut at_address = buff;
        let address = match Self::netaddr_from_bytes(&mut at_address) {
            Ok(a) => a,
            Err(e) => { return Err(e); },
        };
        let (_, buff) = match read_drop_slice(&at_address, 52) {
            Ok(p) => p,
            Err(e) => { return Err(e); },
        };
        let (nonce, _) = match parse_frombytes_le::<u64>(&buff) {
            Ok(p) => p,
            Err(e) => { return Err(e); },
        };
        assert(msg@.subrange(0, 20).subrange(0, 4) =~= msg@.subrange(0, 4));
        assert(msg@.subrange(4, msg@.len() as int).subrange(0, 8) =~= msg@.subrange(4, 12));
        assert(msg@.subrange(12, msg@.len() as int).subrange(0, 8) =~= msg@.subrange(12, 20));
        assert(buff@.subrange(0, 8) =~= msg@.subrange(72, 80));
        let v = VersionMessage {
            protocol_version,
            service,
            timestamp,
            addr_recv: address,
            addr_from: SocketAddress { ip: 0, port: 0 },
            nonce,
            user_agent: String::new(),
            start_height: 1,
        };
        assert(v.user_agent@ =~= Seq::empty());
        Ok(Box::new(v))
    }
}

impl NetworkAddress for VersionMessage {
    fn netaddr_as_bytes(node_bitmask: &u64, address: &SocketAddress) -> (out: Vec<u8>) {
        encode_netaddr(*node_bitmask, address)
    }

    fn netaddr_from_bytes(buff: &mut Vec<u8>) -> (r: Result<SocketAddress, ProtocolError>) {
        decode_netaddr(buff)
    }
}

impl ProtocolMessage for VersionMessage {
    fn to_bytes(&self) -> (out: Vec<u8>) {
        match self.to_rawmessage() {
            Ok(b) => b,
            Err(_) => Vec::new(),
        }
    }
}

impl CommandMessage for VersionMessage {
    const COMMAND: [u8; 12] = VERSION_COMMAND;
}

impl Checksum for VersionMessage {
    fn calculate_sha256(&self) -> (digest: [u8; 32]) {
        let payload = self.to_bytes();
        checksum(payload.as_slice())
    }
}

/// The acknowledgment that answers an accepted version message. It has
/// no fields and an empty payload.
#[derive(Debug)]
pub struct VerackMessage {}

impl View for VerackMessage {
    type V = ();

    open spec fn view(&self) -> () {
        ()
    }
}

impl VerackMessage {
    /// The acknowledgment.
    pub fn new() -> (v: Self) {
        VerackMessage {  }
    }

    /// The payload of an acknowledgment: no bytes.
    pub fn to_raw_message(self) -> (out: Vec<u8>)
        ensures
            out@ == Seq::<u8>::empty(),
    {
        Vec::new()
    }
}

impl CommandMessage for VerackMessage {
    const COMMAND: [u8; 12] = VERACK_COMMAND;
}

impl RawMessage for VerackMessage {
    open spec fn wire(m: ()) -> Seq<u8> {
        Seq::empty()
    }

    open spec fn parse(msg: Seq<u8>) -> Result<(), ProtocolError> {
        Ok(())
    }

    fn from_rawmessage(_msg: &Vec<u8>) -> (r: Result<Box<Self>, ProtocolError>) {
        Ok(Box::new(VerackMessage {  }))
    }

    fn to_rawmessage(&self) -> (r: Result<Vec<u8>, ProtocolError>) {
        Ok(Vec::new())
    }
}

/// The two command names of the handshake are zero-padded ASCII names.
pub proof fn lemma_command_names()
    ensures
        crate::btc_message::is_command_name(version_command()),
        crate::btc_message::is_command_name(verack_command()),
        VERSION_COMMAND@ == version_command(),
        VERACK_COMMAND@ == verack_command(),
{
    assert(VERSION_COMMAND@ =~= version_command());
    assert(VERACK_COMMAND@ =~= verack_command());
}

/// An encoded version payload has 86 bytes, and decoding it gives back
/// the protocol version, the timestamp, the receiver address and the
/// nonce. The service mask read back is that of `NODE_NETWORK`.
pub proof fn lemma_version_roundtrip(m: VersionFields)
    ensures
        version_bytes(m).len() == 86,
        version_parse(version_bytes(m)) is Ok,
        version_parse(version_bytes(m))->Ok_0.protocol_version == m.protocol_version,
        version_parse(version_bytes(m))->Ok_0.service == service_mask(NODE_NETWORK),
        version_parse(version_bytes(m))->Ok_0.timestamp == m.timestamp,
        version_parse(version_bytes(m))->Ok_0.addr_recv == m.addr_recv,
        version_parse(version_bytes(m))->Ok_0.nonce == m.nonce,
{
    let b = version_bytes(m);
    let mask = service_mask(NODE_NETWORK);
    <i32 as ToEndian>::lemma_roundtrip(m.protocol_version);
    <i32 as ToEndian>::lemma_roundtrip(m.start_height);
    <i64 as ToEndian>::lemma_roundtrip(m.timestamp);
    <u64 as ToEndian>::lemma_roundtrip(mask);
    <u64 as ToEndian>::lemma_roundtrip(m.nonce);
    lemma_netaddr_roundtrip(mask, m.addr_recv);
    assert(b.len() == 86);
    assert(b.subrange(0, 4) =~= m.protocol_version.le_bytes());
    assert(b.subrange(4, 12) =~= u64_le(mask));
    assert(b.subrange(12, 20) =~= m.timestamp.le_bytes());
    assert(b.subrange(72, 80) =~= u64_le(m.nonce));
    let tail = b.subrange(20, b.len() as int);
    let a = netaddr_bytes(mask, m.addr_recv);
    assert(tail.subrange(8, 20) =~= a.subrange(8, 20));
    assert(tail.subrange(20, 24) =~= a.subrange(20, 24));
    assert(tail.subrange(24, 26) =~= a.subrange(24, 26));
}

} // verus!
