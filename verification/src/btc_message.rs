use vstd::prelude::*;
use vstd::slice::slice_to_vec;
use crate::endian::le_u32;
use crate::endian::u32_le;
use crate::error::ProtocolError;
use crate::utils::parse_frombytes_le;
use crate::utils::read_drop_slice;
use crate::utils::ToEndian;

verus! {

/// Bytes of a frame header: magic, command, length, checksum.
pub const HEADER_LEN: usize = 24;

/// The mathematical content of a frame.
pub struct Envelope {
    pub magic: u32,
    pub command: Seq<u8>,
    pub length: u32,
    pub checksum: u32,
    pub payload: Seq<u8>,
}

/// The wire form of a frame: magic, the 12 command bytes, payload length
/// and checksum tag (integers little-endian), then the payload.
pub open spec fn envelope_bytes(e: Envelope) -> Seq<u8> {
    u32_le(e.magic) + e.command + u32_le(e.length) + u32_le(e.checksum) + e.payload
}

/// What decoding a frame header gives: the four header fields and an
/// empty payload, or `TruncatedInput` where fewer than 24 bytes are there.
/// Neither magic nor checksum is held against anything, and bytes
/// behind the header are not read.
pub open spec fn envelope_parse(b: Seq<u8>) -> Result<Envelope, ProtocolError> {
    if b.len() < 24 {
        Err(ProtocolError::TruncatedInput)
    } else {
        Ok(
            Envelope {
                magic: le_u32(b.subrange(0, 4)),
                command: b.subrange(4, 16),
                length: le_u32(b.subrange(16, 20)),
                checksum: le_u32(b.subrange(20, 24)),
                payload: Seq::empty(),
            },
        )
    }
}

/// Whether twelve bytes are a command name: ASCII, with nothing but zero
/// bytes behind the first zero byte.
pub open spec fn is_command_name(c: Seq<u8>) -> bool {
    &&& c.len() == 12
    &&& forall|i: int| 0 <= i < 12 ==> #[trigger] c[i] < 128
    &&& forall|i: int, j: int| #![trigger c[i], c[j]] 0 <= i <= j < 12 && c[i] == 0 ==> c[j] == 0
}

/// A value with a wire form that can be written and read back.
pub trait ToTheChain: View + Sized {
    /// The bytes that stand for a value.
    spec fn frame(m: Self::V) -> Seq<u8>;

    /// What reading a value from `bytes` gives.
    spec fn parse_frame(bytes: Seq<u8>) -> Result<Self::V, ProtocolError>;

    /// Writes the value in its wire form.
    fn to_bytes(&self) -> (out: Vec<u8>)
        ensures
            out@ == Self::frame(self@),
    ;

    /// Reads a value from its wire form.
    fn from_bytes(bytes: &[u8]) -> (r: Result<Box<Self>, ProtocolError>)
        ensures
            match Self::parse_frame(bytes@) {
                Ok(m) => r is Ok && (*r->Ok_0)@ == m,
                Err(e) => r is Err && r->Err_0 == e,
            },
    ;
}

/// One framed message as it travels to or from a peer.
#[derive(Debug)]
pub struct BtcMessage {
    pub magic: u32,
    pub command: [u8; 12],
    pub length: u32,
    pub checksum: u32,
    pub payload: Vec<u8>,
}

impl View for BtcMessage {
    type V = Envelope;

    open spec fn view(&self) -> Envelope {
        Envelope {
            magic: self.magic,
            command: self.command@,
            length: self.length,
            checksum: self.checksum,
            payload: self.payload@,
        }
    }
}

impl BtcMessage {
    /// Whether the length field counts the payload bytes and the command
    /// is a zero-padded ASCII name.
    pub open spec fn well_formed(&self) -> bool {
        &&& self.length == self.payload@.len()
        &&& is_command_name(self.command@)
    }

    /// A frame around `payload`, with the length field set from it. The
    /// payload must fit the 4-byte length field. The frame is well formed
    /// where `command` is a zero-padded ASCII name.
    pub fn new(magic: u32, command: [u8; 12], checksum: u32, payload: Vec<u8>) -> (m: Self)
        requires
            payload@.len() <= u32::MAX,
        ensures
            m.magic == magic,
            m.command == command,
            m.length == payload@.len(),
            m.checksum == checksum,
            m.payload == payload,
            m.well_formed() <==> is_command_name(command@),
    {
        Self { magic, command, length: payload.len() as u32, checksum, payload }
    }

    /// The 12 command bytes of the frame.
    pub fn command(&self) -> (c: [u8; 12])
        ensures
            c == self.command,
    {
        self.command
    }
}

impl Default for BtcMessage {
    /// The empty frame: every field zero, no payload.
    fn default() -> (m: Self)
        ensures
            m.magic == 0,
            m.command@ == Seq::new(12, |i: int| 0u8),
            m.length == 0,
            m.checksum == 0,
            m.payload@ == Seq::<u8>::empty(),
    {
        let command: [u8; 12] = [0u8, 0u8, 0u8, 0u8, 0u8, 0u8, 0u8, 0u8, 0u8, 0u8, 0u8, 0u8];
        assert(command@ =~= Seq::new(12, |i: int| 0u8));
        Self { magic: 0, command, length: 0, checksum: 0, payload: Vec::new() }
    }
}

impl ToTheChain for BtcMessage {
    open spec fn frame(m: Envelope) -> Seq<u8> {
        envelope_bytes(m)
    }

    open spec fn parse_frame(bytes: Seq<u8>) -> Result<Envelope, ProtocolError> {
        envelope_parse(bytes)
    }

    fn to_bytes(&self) -> (out: Vec<u8>) {
        let mut buff: Vec<u8> = Vec::new();
        let mut magic = self.magic.to_little_endian();
        buff.append(&mut magic);
        let mut i: usize = 0;
        while i < 12
            invariant
                i <= 12,
                buff@ == u32_le(self.magic) + self.command@.subrange(0, i as int),
            decreases 12 - i,
        {
            buff.push(self.command[i]);
            assert(buff@ =~= u32_le(self.magic) + self.command@.subrange(0, i + 1));
            i = i + 1;
        }
        assert(self.command@.subrange(0, 12) =~= self.command@);
        let mut length = self.length.to_little_endian();
        buff.append(&mut length);
        let mut checksum = self.checksum.to_little_endian();
        buff.append(&mut checksum);
        let n: usize = self.payload.len();
        let ghost head = buff@;
        let mut k: usize = 0;
        while k < n
            invariant
                k <= n,
                n == self.payload@.len(),
                buff@ == head + self.payload@.subrange(0, k as int),
            decreases n - k,
        {
            buff.push(self.payload[k]);
            assert(buff@ =~= head + self.payload@.subrange(0, k + 1));
            k = k + 1;
        }
        assert(self.payload@.subrange(0, n as int) =~= self.payload@);
        buff
    }

    fn from_bytes(bytes: &[u8]) -> (r: Result<Box<Self>, ProtocolError>) {
        let all = slice_to_vec(bytes);
        let (magic, buff) = match parse_frombytes_le::<u32>(&all) {
            Ok(p) => p,
            Err(e) => { return Err(e); },
        };
        let (cmd, buff2) = match read_drop_slice(&buff, 12) {
            Ok(p) => p,
            Err(e) => { return Err(e); },
        };
        let (length, buff3) = match parse_frombytes_le::<u32>(&buff2) {
            Ok(p) => p,
            Err(e) => { return Err(e); },
        };
        let (checksum, _) = match parse_frombytes_le::<u32>(&buff3) {
            Ok(p) => p,
            Err(e) => { return Err(e); },
        };
        let mut command: [u8; 12] = [0u8, 0u8, 0u8, 0u8, 0u8, 0u8, 0u8, 0u8, 0u8, 0u8, 0u8, 0u8];
        let mut i: usize = 0;
        while i < 12
            invariant
                i <= 12,
                cmd@.len() == 12,
                forall|k: int| 0 <= k < i ==> command@[k] == cmd@[k],
            decreases 12 - i,
        {
            command[i] = cmd[i];
            i = i + 1;
        }
        assert(command@ =~= bytes@.subrange(4, 16));
        assert(buff2@.subrange(0, 4) =~= bytes@.subrange(16, 20));
        assert(buff3@.subrange(0, 4) =~= bytes@.subrange(20, 24));
        Ok(Box::new(Self { magic, command, length, checksum, payload: Vec::new() }))
    }
}

/// Decoding an encoded frame gives back its magic, command, length and
/// checksum tag. The payload is not read back.
pub proof fn lemma_envelope_roundtrip(e: Envelope)
    requires
        e.command.len() == 12,
    ensures
        envelope_parse(envelope_bytes(e)) is Ok,
        envelope_parse(envelope_bytes(e))->Ok_0.magic == e.magic,
        envelope_parse(envelope_bytes(e))->Ok_0.command == e.command,
        envelope_parse(envelope_bytes(e))->Ok_0.length == e.length,
        envelope_parse(envelope_bytes(e))->Ok_0.checksum == e.checksum,
{
    let b = envelope_bytes(e);
    assert(b.subrange(0, 4) =~= u32_le(e.magic));
    assert(b.subrange(4, 16) =~= e.command);
    assert(b.subrange(16, 20) =~= u32_le(e.length));
    assert(b.subrange(20, 24) =~= u32_le(e.checksum));
    <u32 as ToEndian>::lemma_roundtrip(e.magic);
    <u32 as ToEndian>::lemma_roundtrip(e.length);
    <u32 as ToEndian>::lemma_roundtrip(e.checksum);
}

} // verus!
