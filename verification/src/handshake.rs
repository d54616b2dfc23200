use vstd::prelude::*;
use crate::btc_message::envelope_bytes;
use crate::btc_message::envelope_parse;
use crate::btc_message::BtcMessage;
use crate::btc_message::Envelope;
use crate::btc_message::ToTheChain;
use crate::btc_message::HEADER_LEN;
use crate::checksum::checksum;
use crate::checksum::checksum_tag;
use crate::checksum::double_sha256;
use crate::checksum::tag_of;
use crate::error::ProtocolError;
use crate::version::lemma_version_roundtrip;
use crate::version::version_bytes;
use crate::version::version_command;
use crate::version::ProtocolMessage;
use crate::version::VersionFields;
use crate::version::VersionMessage;
use crate::version::VERSION_COMMAND;

verus! {

/// Where a connection attempt stands.
#[derive(Clone, Copy, Debug, PartialEq, Eq, Structural)]
pub enum HandshakeState {
    /// Nothing has been sent yet.
    Init,
    /// The version frame has been handed to the transport.
    VersionSent,
    /// The frame is written; the peer's answer is awaited.
    AwaitingAck,
    /// The peer answered as expected: the connection is usable.
    Established,
    /// The attempt is over, for the reason given.
    Failed(ProtocolError),
}

/// What the transport reports back to the handshake.
#[derive(Debug)]
pub enum HandshakeEvent {
    /// The connection is open and the attempt may begin.
    Start,
    /// The bytes of the last `Send` were written and flushed.
    Written,
    /// The bytes asked for by the last `Receive` have arrived.
    Received(Vec<u8>),
    /// A read or a write failed.
    TransportFailed,
}

/// What the handshake asks of the transport next.
#[derive(Debug)]
pub enum HandshakeAction {
    /// Write these bytes and flush.
    Send(Vec<u8>),
    /// Read exactly this many bytes.
    Receive(usize),
    /// Nothing more to do.
    Stop,
}

/// The frame that opens a handshake: the version payload under the
/// command `version`, with the tag of its double-SHA-256 digest.
pub open spec fn version_frame(magic: u32, m: VersionFields) -> Seq<u8> {
    envelope_bytes(
        Envelope {
            magic,
            command: version_command(),
            length: 86,
            checksum: tag_of(double_sha256(version_bytes(m))),
            payload: version_bytes(m),
        },
    )
}

/// The state that the peer's answer leads to: `Established` where the
/// header decodes and carries the command `version`, `Failed` otherwise.
pub open spec fn after_reply(header: Seq<u8>) -> HandshakeState {
    match envelope_parse(header) {
        Err(e) => HandshakeState::Failed(e),
        Ok(env) => if env.command == version_command() {
            HandshakeState::Established
        } else {
            HandshakeState::Failed(ProtocolError::CommandMismatch)
        },
    }
}

/// Whether the attempt is over.
pub open spec fn is_terminal(s: HandshakeState) -> bool {
    s is Established || s is Failed
}

/// The transition function of the handshake. A transport failure ends
/// any running attempt; an event that the current state does not expect
/// leaves the state as it is.
pub open spec fn next_state(s: HandshakeState, e: HandshakeEvent) -> HandshakeState {
    match (s, e) {
        (HandshakeState::Init, HandshakeEvent::Start) => HandshakeState::VersionSent,
        (HandshakeState::VersionSent, HandshakeEvent::Written) => HandshakeState::AwaitingAck,
        (HandshakeState::AwaitingAck, HandshakeEvent::Received(bytes)) => after_reply(bytes@),
        (HandshakeState::Init, HandshakeEvent::TransportFailed) => HandshakeState::Failed(
            ProtocolError::TransportFailure,
        ),
        (HandshakeState::VersionSent, HandshakeEvent::TransportFailed) => HandshakeState::Failed(
            ProtocolError::TransportFailure,
        ),
        (HandshakeState::AwaitingAck, HandshakeEvent::TransportFailed) => HandshakeState::Failed(
            ProtocolError::TransportFailure,
        ),
        _ => s,
    }
}

/// Whether two command names are the same, byte for byte.
pub fn same_command(a: &[u8; 12], b: &[u8; 12]) -> (same: bool)
    ensures
        same <==> a@ == b@,
{
    let mut i: usize = 0;
    while i < 12
        invariant
            i <= 12,
            forall|k: int| 0 <= k < i ==> a@[k] == b@[k],
        decreases 12 - i,
    {
        if a[i] != b[i] {
            assert(a@[i as int] != b@[i as int]);
            return false;
        }
        i = i + 1;
    }
    assert(a@ =~= b@);
    true
}

/// Wraps a version payload and its digest into the frame to send.
pub fn frame_version(magic: u32, payload: Vec<u8>, digest: &[u8; 32]) -> (out: Vec<u8>)
    requires
        payload@.len() <= u32::MAX,
    ensures
        out@ == envelope_bytes(
            Envelope {
                magic,
                command: version_command(),
                length: payload@.len() as u32,
                checksum: tag_of(digest@),
                payload: payload@,
            },
        ),
{
    let tag = checksum_tag(digest);
    assert(VERSION_COMMAND@ =~= version_command());
    let message = BtcMessage::new(magic, VERSION_COMMAND, tag, payload);
    message.to_bytes()
}

/// The frame that opens a handshake with the given version message.
pub fn version_frame_bytes(magic: u32, version: &VersionMessage) -> (out: Vec<u8>)
    ensures
        out@ == version_frame(magic, version@),
{
    proof {
        lemma_version_roundtrip(version@);
    }
    let payload = version.to_bytes();
    let digest = checksum(payload.as_slice());
    frame_version(magic, payload, &digest)
}

/// Judges the peer's answer: `Ok` where the 24 header bytes decode and
/// carry the command `version`.
pub fn check_reply(header: &[u8]) -> (r: Result<(), ProtocolError>)
    ensures
        match after_reply(header@) {
            HandshakeState::Failed(e) => r == Err::<(), ProtocolError>(e),
            _ => r is Ok,
        },
        r is Ok <==> after_reply(header@) == HandshakeState::Established,
{
    match BtcMessage::from_bytes(header) {
        Err(e) => Err(e),
        Ok(answer) => {
            assert(VERSION_COMMAND@ =~= version_command());
            let got = answer.command();
            if same_command(&got, &VERSION_COMMAND) {
                Ok(())
            } else {
                Err(ProtocolError::CommandMismatch)
            }
        },
    }
}

/// One step of the handshake: the state after `event`, and what the
/// transport is to do next. From `Init`, `Start` asks to send the version
/// frame; once that is `Written`, the 24 header bytes of the answer are asked
/// for; once they are `Received`, the attempt is decided.
pub fn step(
    state: HandshakeState,
    event: &HandshakeEvent,
    magic: u32,
    version: &VersionMessage,
) -> (r: (HandshakeState, HandshakeAction))
    ensures
        r.0 == next_state(state, *event),
        match (state, *event) {
            (HandshakeState::Init, HandshakeEvent::Start) => r.1 matches HandshakeAction::Send(bytes)
                && bytes@ == version_frame(magic, version@),
            (HandshakeState::VersionSent, HandshakeEvent::Written) => r.1 matches HandshakeAction::Receive(n)
                && n == 24,
            _ => r.1 is Stop,
        },
{
    match state {
        HandshakeState::Init => match event {
            HandshakeEvent::Start => (
                HandshakeState::VersionSent,
                HandshakeAction::Send(version_frame_bytes(magic, version)),
            ),
            HandshakeEvent::TransportFailed => (
                HandshakeState::Failed(ProtocolError::TransportFailure),
                HandshakeAction::Stop,
            ),
            _ => (state, HandshakeAction::Stop),
        },
        HandshakeState::VersionSent => match event {
            HandshakeEvent::Written => (
                HandshakeState::AwaitingAck,
                HandshakeAction::Receive(HEADER_LEN),
            ),
            HandshakeEvent::TransportFailed => (
                HandshakeState::Failed(ProtocolError::TransportFailure),
                HandshakeAction::Stop,
            ),
            _ => (state, HandshakeAction::Stop),
        },
        HandshakeState::AwaitingAck => match event {
            HandshakeEvent::Received(bytes) => match check_reply(bytes.as_slice()) {
                Ok(()) => (HandshakeState::Established, HandshakeAction::Stop),
                Err(e) => (HandshakeState::Failed(e), HandshakeAction::Stop),
            },
            HandshakeEvent::TransportFailed => (
                HandshakeState::Failed(ProtocolError::TransportFailure),
                HandshakeAction::Stop,
            ),
            _ => (state, HandshakeAction::Stop),
        },
        _ => (state, HandshakeAction::Stop),
    }
}

/// While the answer is awaited, 24 bytes whose command field is
/// `version` establish the connection; 24 bytes with any other command end
/// the attempt with `CommandMismatch`.
pub proof fn lemma_reply_decides(reply: HandshakeEvent)
    requires
        reply matches HandshakeEvent::Received(bytes) && bytes@.len() == 24,
    ensures
        reply->Received_0@.subrange(4, 16) == version_command() ==> next_state(
            HandshakeState::AwaitingAck,
            reply,
        ) == HandshakeState::Established,
        reply->Received_0@.subrange(4, 16) != version_command() ==> next_state(
            HandshakeState::AwaitingAck,
            reply,
        ) == HandshakeState::Failed(ProtocolError::CommandMismatch),
{
}

/// An attempt that is over stays as it is, whatever is reported.
pub proof fn lemma_terminal_stays(s: HandshakeState, e: HandshakeEvent)
    requires
        is_terminal(s),
    ensures
        next_state(s, e) == s,
{
}

/// A transport failure ends every attempt that is still running.
pub proof fn lemma_transport_failure_is_fatal(s: HandshakeState)
    requires
        !is_terminal(s),
    ensures
        next_state(s, HandshakeEvent::TransportFailed) == HandshakeState::Failed(
            ProtocolError::TransportFailure,
        ),
{
}

} // verus!
