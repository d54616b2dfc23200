use btc_handshake::address::{decode_netaddr, encode_netaddr, SocketAddress};
use btc_handshake::btc_message::{BtcMessage, ToTheChain, HEADER_LEN};
use btc_handshake::checksum::{checksum, checksum_tag};
use btc_handshake::error::ProtocolError;
use btc_handshake::handshake::{
    check_reply, frame_version, same_command, step, version_frame_bytes, HandshakeAction,
    HandshakeEvent, HandshakeState,
};
use btc_handshake::network::{Chain, MAGIC_NUMBER};
use btc_handshake::version::{
    Checksum, CommandMessage, NetworkAddress, ProtocolMessage, RawMessage, VerackMessage,
    VersionMessage,
    VERACK_COMMAND, VERSION_COMMAND, VERSION_PAYLOAD_LEN,
};

const EMPTY_DIGEST: [u8; 32] = [
    93, 246, 224, 226, 118, 19, 89, 211, 10, 130, 117, 5, 142, 41, 159, 204, 3, 129, 83, 69, 69,
    245, 92, 244, 62, 65, 152, 63, 93, 76, 148, 86,
];

const HELLO_DIGEST: [u8; 32] = [
    149, 149, 201, 223, 144, 7, 81, 72, 235, 6, 134, 3, 101, 223, 51, 88, 75, 117, 191, 247, 130,
    165, 16, 198, 205, 72, 131, 164, 25, 131, 61, 80,
];

const SCENARIO_PAYLOAD: [u8; 86] = [
    98, 234, 0, 0, 1, 0, 0, 0, 0, 0, 0, 0, 0, 241, 83, 101, 0, 0, 0, 0, 1, 0, 0, 0, 0, 0, 0, 0, 0,
    0, 0, 0, 0, 0, 0, 0, 0, 0, 255, 255, 127, 0, 0, 1, 72, 13, 0, 0, 0, 0, 0, 0, 0, 0, 0, 0, 0, 0,
    0, 0, 0, 0, 0, 0, 0, 0, 0, 0, 0, 0, 0, 0, 136, 119, 102, 85, 68, 51, 34, 17, 0, 1, 0, 0, 0, 0,
];

fn localhost() -> SocketAddress {
    SocketAddress::from_octets([127, 0, 0, 1], 18445)
}

fn scenario_message() -> VersionMessage {
    VersionMessage::with_session(60002, localhost(), 1_700_000_000, 0x1122_3344_5566_7788)
}

fn version_header() -> Vec<u8> {
    let mut header = vec![0xFA, 0xBF, 0xB5, 0xDA];
    header.extend_from_slice(b"version\0\0\0\0\0");
    header.extend_from_slice(&[86, 0, 0, 0]);
    header.extend_from_slice(&[150, 69, 67, 167]);
    header
}

#[test]
fn checksum_of_known_payloads() {
    assert_eq!(checksum(&[]), EMPTY_DIGEST);
    assert_eq!(checksum(b"hello"), HELLO_DIGEST);
}

#[test]
fn checksum_is_deterministic() {
    let payload = b"the same bytes twice";
    assert_eq!(checksum(payload), checksum(payload));
    assert_eq!(checksum(&SCENARIO_PAYLOAD), checksum(&SCENARIO_PAYLOAD.to_vec()));
}

#[test]
fn checksum_tells_payloads_apart() {
    let payloads: [&[u8]; 5] = [b"", b"a", b"b", b"ab", b"ba"];
    for i in 0..payloads.len() {
        for j in 0..payloads.len() {
            if i != j {
                assert_ne!(checksum(payloads[i]), checksum(payloads[j]));
            }
        }
    }
}

#[test]
fn checksum_tag_is_the_first_four_digest_bytes() {
    assert_eq!(checksum_tag(&EMPTY_DIGEST), 0xE2E0_F65D);
    assert_eq!(checksum_tag(&EMPTY_DIGEST).to_le_bytes(), [0x5D, 0xF6, 0xE0, 0xE2]);
    assert_eq!(checksum_tag(&HELLO_DIGEST).to_le_bytes(), [149, 149, 201, 223]);
}

#[test]
fn socket_address_octets() {
    let a = localhost();
    assert_eq!(a.ip, 0x7f00_0001);
    assert_eq!(a.port, 18445);
    assert_eq!(a.octets(), vec![127, 0, 0, 1]);
    assert_eq!(SocketAddress::from_octets([192, 168, 1, 20], 80).ip, 0xC0A8_0114);
}

#[test]
fn netaddr_layout() {
    let bytes = encode_netaddr(1, &localhost());
    let expected: Vec<u8> = vec![
        1, 0, 0, 0, 0, 0, 0, 0, 0, 0, 0, 0, 0, 0, 0, 0, 0, 0, 0xff, 0xff, 127, 0, 0, 1, 0x48, 0x0d,
    ];
    assert_eq!(bytes, expected);
    assert_eq!(bytes.len(), 26);
    assert_eq!(VersionMessage::netaddr_as_bytes(&1, &localhost()), expected);
}

#[test]
fn netaddr_round_trip() {
    let addrs = [
        SocketAddress::from_octets([0, 0, 0, 0], 0),
        SocketAddress::from_octets([127, 0, 0, 1], 18445),
        SocketAddress::from_octets([255, 255, 255, 255], 65535),
        SocketAddress::from_octets([10, 20, 30, 40], 8333),
    ];
    for a in addrs {
        for mask in [0u64, 1, 0x409, u64::MAX] {
            let bytes = encode_netaddr(mask, &a);
            assert_eq!(decode_netaddr(&bytes), Ok(a));
            let mut copy = bytes.clone();
            assert_eq!(VersionMessage::netaddr_from_bytes(&mut copy), Ok(a));
            assert_eq!(copy, bytes);
        }
    }
}

#[test]
fn netaddr_decode_ignores_what_follows() {
    let mut bytes = encode_netaddr(7, &localhost());
    bytes.extend_from_slice(&[9, 9, 9]);
    assert_eq!(decode_netaddr(&bytes), Ok(localhost()));
}

#[test]
fn netaddr_decode_of_short_input() {
    let bytes = encode_netaddr(1, &localhost());
    for n in 0..26 {
        assert_eq!(decode_netaddr(&bytes[..n].to_vec()), Err(ProtocolError::TruncatedInput));
    }
}

#[test]
fn netaddr_decode_rejects_other_address_families() {
    let mut bytes = encode_netaddr(1, &localhost());
    bytes[18] = 0;
    assert_eq!(decode_netaddr(&bytes), Err(ProtocolError::InvalidAddressFamily));
    let mut bytes = encode_netaddr(1, &localhost());
    bytes[8] = 0x20;
    assert_eq!(decode_netaddr(&bytes), Err(ProtocolError::InvalidAddressFamily));
    let zeros = vec![0u8; 26];
    assert_eq!(decode_netaddr(&zeros), Err(ProtocolError::InvalidAddressFamily));
}

#[test]
fn version_payload_layout() {
    let payload = scenario_message().to_rawmessage().unwrap();
    assert_eq!(payload.len(), VERSION_PAYLOAD_LEN);
    assert_eq!(payload, SCENARIO_PAYLOAD.to_vec());
    assert_eq!(scenario_message().to_bytes(), SCENARIO_PAYLOAD.to_vec());
    assert!(payload[46..72].iter().all(|b| *b == 0));
    assert_eq!(payload[80], 0);
    assert_eq!(payload[85], 0);
}

#[test]
fn version_payload_negative_fields() {
    let v = VersionMessage::with_session(-1, localhost(), -2, u64::MAX);
    let payload = v.to_rawmessage().unwrap();
    assert_eq!(&payload[0..4], &[0xff, 0xff, 0xff, 0xff]);
    assert_eq!(&payload[12..20], &[0xfe, 0xff, 0xff, 0xff, 0xff, 0xff, 0xff, 0xff]);
    assert_eq!(&payload[72..80], &[0xff; 8]);
    let back = VersionMessage::from_rawmessage(&payload).unwrap();
    assert_eq!(back.protocol_version, -1);
    assert_eq!(back.timestamp, -2);
    assert_eq!(back.nonce, u64::MAX);
}

#[test]
fn version_payload_round_trip() {
    let payload = scenario_message().to_rawmessage().unwrap();
    let back = VersionMessage::from_rawmessage(&payload).unwrap();
    assert_eq!(back.protocol_version, 60002);
    assert_eq!(back.service, 1);
    assert_eq!(back.timestamp, 1_700_000_000);
    assert_eq!(back.addr_recv, localhost());
    assert_eq!(back.addr_from, SocketAddress { ip: 0, port: 0 });
    assert_eq!(back.nonce, 0x1122_3344_5566_7788);
    assert_eq!(back.user_agent, "");
    assert_eq!(back.start_height, 1);
}

#[test]
fn version_decode_needs_eighty_bytes() {
    let payload = SCENARIO_PAYLOAD.to_vec();
    for n in 0..80 {
        let r = VersionMessage::from_rawmessage(&payload[..n].to_vec());
        assert_eq!(r.unwrap_err(), ProtocolError::TruncatedInput);
    }
    assert!(VersionMessage::from_rawmessage(&payload[..80].to_vec()).is_ok());
}

#[test]
fn version_decode_rejects_other_address_families() {
    let mut payload = SCENARIO_PAYLOAD.to_vec();
    payload[38] = 0;
    let r = VersionMessage::from_rawmessage(&payload);
    assert_eq!(r.unwrap_err(), ProtocolError::InvalidAddressFamily);
    let r = VersionMessage::from_rawmessage(&payload[..46].to_vec());
    assert_eq!(r.unwrap_err(), ProtocolError::InvalidAddressFamily);
}

#[test]
fn version_with_session_fields() {
    let v = scenario_message();
    assert_eq!(v.protocol_version, 60002);
    assert_eq!(v.service, 1);
    assert_eq!(v.timestamp, 1_700_000_000);
    assert_eq!(v.addr_recv, localhost());
    assert_eq!(v.addr_from, SocketAddress::from_octets([127, 0, 0, 1], 8080));
    assert_eq!(v.nonce, 0x1122_3344_5566_7788);
    assert_eq!(v.user_agent, "");
    assert_eq!(v.start_height, 1);
}

#[test]
fn version_new_stamps_the_message() {
    let v = VersionMessage::new(60002, localhost()).unwrap();
    assert_eq!(v.protocol_version, 60002);
    assert_eq!(v.service, 1);
    assert!(v.timestamp >= 0);
    assert_eq!(v.addr_recv, localhost());
    assert_eq!(v.addr_from, SocketAddress::from_octets([127, 0, 0, 1], 8080));
    assert_eq!(v.user_agent, "");
    assert_eq!(v.start_height, 1);
}

#[test]
fn version_stamped_follows_the_clock() {
    let v = VersionMessage::stamped(70016, localhost(), Some(42), 9).unwrap();
    assert_eq!(v.protocol_version, 70016);
    assert_eq!(v.service, 1);
    assert_eq!(v.timestamp, 42);
    assert_eq!(v.addr_recv, localhost());
    assert_eq!(v.addr_from, SocketAddress::from_octets([127, 0, 0, 1], 8080));
    assert_eq!(v.nonce, 9);
    assert_eq!(v.user_agent, "");
    assert_eq!(v.start_height, 1);
    assert!(VersionMessage::stamped(70016, localhost(), None, 9).is_none());
}

#[test]
fn version_digest_is_that_of_its_payload() {
    let v = scenario_message();
    assert_eq!(v.calculate_sha256(), checksum(&SCENARIO_PAYLOAD));
    assert_eq!(&v.calculate_sha256()[..4], &[150, 69, 67, 167]);
}

#[test]
fn command_names() {
    assert_eq!(&VERSION_COMMAND, b"version\0\0\0\0\0");
    assert_eq!(&VERACK_COMMAND, b"verack\0\0\0\0\0\0");
    assert_eq!(<VersionMessage as CommandMessage>::COMMAND, VERSION_COMMAND);
    assert_eq!(<VerackMessage as CommandMessage>::COMMAND, VERACK_COMMAND);
    assert!(same_command(&VERSION_COMMAND, &VERSION_COMMAND));
    assert!(!same_command(&VERSION_COMMAND, &VERACK_COMMAND));
}

#[test]
fn verack_has_no_payload() {
    assert!(VerackMessage::new().to_raw_message().is_empty());
    assert_eq!(VerackMessage::new().to_rawmessage(), Ok(Vec::new()));
    assert!(VerackMessage::from_rawmessage(&vec![1, 2, 3]).is_ok());
    assert!(VerackMessage::from_rawmessage(&Vec::new()).is_ok());
}

#[test]
fn envelope_new_sets_the_length() {
    let m = BtcMessage::new(MAGIC_NUMBER, VERSION_COMMAND, 7, vec![1, 2, 3]);
    assert_eq!(m.magic, 0xDAB5_BFFA);
    assert_eq!(m.command(), VERSION_COMMAND);
    assert_eq!(m.length, 3);
    assert_eq!(m.checksum, 7);
    assert_eq!(m.payload, vec![1, 2, 3]);
}

#[test]
fn envelope_default_is_empty() {
    let m = BtcMessage::default();
    assert_eq!(m.magic, 0);
    assert_eq!(m.command(), [0u8; 12]);
    assert_eq!(m.length, 0);
    assert_eq!(m.checksum, 0);
    assert!(m.payload.is_empty());
}

#[test]
fn envelope_layout() {
    let m = BtcMessage::new(MAGIC_NUMBER, VERACK_COMMAND, 0xE2E0_F65D, Vec::new());
    let mut expected = vec![0xFA, 0xBF, 0xB5, 0xDA];
    expected.extend_from_slice(b"verack\0\0\0\0\0\0");
    expected.extend_from_slice(&[0, 0, 0, 0]);
    expected.extend_from_slice(&[0x5D, 0xF6, 0xE0, 0xE2]);
    assert_eq!(m.to_bytes(), expected);
    assert_eq!(m.to_bytes().len(), HEADER_LEN);

    let m = BtcMessage::new(Chain::Testnet3.magic_value(), VERSION_COMMAND, 1, vec![9, 8, 7]);
    let mut expected = vec![0x0B, 0x11, 0x09, 0x07];
    expected.extend_from_slice(b"version\0\0\0\0\0");
    expected.extend_from_slice(&[3, 0, 0, 0]);
    expected.extend_from_slice(&[1, 0, 0, 0]);
    expected.extend_from_slice(&[9, 8, 7]);
    assert_eq!(m.to_bytes(), expected);
}

#[test]
fn envelope_round_trip_of_the_header() {
    let payloads: [Vec<u8>; 3] = [Vec::new(), vec![1], SCENARIO_PAYLOAD.to_vec()];
    for payload in payloads {
        let tag = checksum_tag(&checksum(&payload));
        let m = BtcMessage::new(0x0709_110B, VERSION_COMMAND, tag, payload.clone());
        let back = BtcMessage::from_bytes(&m.to_bytes()).unwrap();
        assert_eq!(back.magic, 0x0709_110B);
        assert_eq!(back.command(), VERSION_COMMAND);
        assert_eq!(back.length as usize, payload.len());
        assert_eq!(back.checksum, tag);
        assert!(back.payload.is_empty());
    }
}

#[test]
fn envelope_decode_needs_a_whole_header() {
    let header = version_header();
    for n in 0..24 {
        let r = BtcMessage::from_bytes(&header[..n]);
        assert_eq!(r.unwrap_err(), ProtocolError::TruncatedInput);
    }
    let back = BtcMessage::from_bytes(&header).unwrap();
    assert_eq!(back.magic, MAGIC_NUMBER);
    assert_eq!(back.length, 86);
    assert_eq!(back.checksum, u32::from_le_bytes([150, 69, 67, 167]));
}

#[test]
fn envelope_decode_does_not_check_magic_or_checksum() {
    let mut header = version_header();
    header[0] = 0;
    header[20] = 0;
    let back = BtcMessage::from_bytes(&header).unwrap();
    assert_eq!(back.magic, 0xDAB5_BF00);
    assert_eq!(back.command(), VERSION_COMMAND);
}

#[test]
fn version_frame_is_header_then_payload() {
    let mut expected = version_header();
    expected.extend_from_slice(&SCENARIO_PAYLOAD);
    assert_eq!(version_frame_bytes(MAGIC_NUMBER, &scenario_message()), expected);
    let digest = checksum(&SCENARIO_PAYLOAD);
    assert_eq!(frame_version(MAGIC_NUMBER, SCENARIO_PAYLOAD.to_vec(), &digest), expected);
}

#[test]
fn reply_with_the_version_command_is_accepted() {
    assert_eq!(check_reply(&version_header()), Ok(()));
    let mut other_network = version_header();
    other_network[1] = 0;
    other_network[17] = 200;
    assert_eq!(check_reply(&other_network), Ok(()));
}

#[test]
fn reply_with_another_command_is_a_mismatch() {
    let mut header = version_header();
    header[4..16].copy_from_slice(b"verack\0\0\0\0\0\0");
    assert_eq!(check_reply(&header), Err(ProtocolError::CommandMismatch));
    let mut header = version_header();
    header[15] = 1;
    assert_eq!(check_reply(&header), Err(ProtocolError::CommandMismatch));
    assert_eq!(check_reply(&[0u8; 24]), Err(ProtocolError::CommandMismatch));
}

#[test]
fn short_reply_is_truncated_input() {
    assert_eq!(check_reply(&version_header()[..23]), Err(ProtocolError::TruncatedInput));
    assert_eq!(check_reply(&[]), Err(ProtocolError::TruncatedInput));
}

#[test]
fn handshake_reaches_established() {
    let v = scenario_message();
    let (s, a) = step(HandshakeState::Init, &HandshakeEvent::Start, MAGIC_NUMBER, &v);
    assert_eq!(s, HandshakeState::VersionSent);
    let mut expected = version_header();
    expected.extend_from_slice(&SCENARIO_PAYLOAD);
    assert!(matches!(a, HandshakeAction::Send(bytes) if bytes == expected));
    let (s, a) = step(s, &HandshakeEvent::Written, MAGIC_NUMBER, &v);
    assert_eq!(s, HandshakeState::AwaitingAck);
    assert!(matches!(a, HandshakeAction::Receive(24)));
    let (s, a) = step(s, &HandshakeEvent::Received(version_header()), MAGIC_NUMBER, &v);
    assert_eq!(s, HandshakeState::Established);
    assert!(matches!(a, HandshakeAction::Stop));
}

#[test]
fn handshake_fails_on_another_command() {
    let v = scenario_message();
    let mut header = version_header();
    header[4..16].copy_from_slice(b"verack\0\0\0\0\0\0");
    let (s, a) = step(HandshakeState::AwaitingAck, &HandshakeEvent::Received(header), 1, &v);
    assert_eq!(s, HandshakeState::Failed(ProtocolError::CommandMismatch));
    assert!(matches!(a, HandshakeAction::Stop));
}

#[test]
fn handshake_fails_on_a_short_reply() {
    let v = scenario_message();
    let event = HandshakeEvent::Received(vec![0; 10]);
    let (s, _) = step(HandshakeState::AwaitingAck, &event, 1, &v);
    assert_eq!(s, HandshakeState::Failed(ProtocolError::TruncatedInput));
}

#[test]
fn handshake_fails_on_transport_failure() {
    let v = scenario_message();
    for s in [HandshakeState::Init, HandshakeState::VersionSent, HandshakeState::AwaitingAck] {
        let (next, a) = step(s, &HandshakeEvent::TransportFailed, 1, &v);
        assert_eq!(next, HandshakeState::Failed(ProtocolError::TransportFailure));
        assert!(matches!(a, HandshakeAction::Stop));
    }
}

#[test]
fn handshake_terminal_states_stay() {
    let v = scenario_message();
    let terminal = [
        HandshakeState::Established,
        HandshakeState::Failed(ProtocolError::CommandMismatch),
        HandshakeState::Failed(ProtocolError::TransportFailure),
    ];
    for s in terminal {
        let events = [
            HandshakeEvent::Start,
            HandshakeEvent::Written,
            HandshakeEvent::Received(version_header()),
            HandshakeEvent::TransportFailed,
        ];
        for e in events {
            let (next, a) = step(s, &e, 1, &v);
            assert_eq!(next, s);
            assert!(matches!(a, HandshakeAction::Stop));
        }
    }
}

#[test]
fn handshake_ignores_events_out_of_turn() {
    let v = scenario_message();
    let (s, a) = step(HandshakeState::Init, &HandshakeEvent::Written, 1, &v);
    assert_eq!(s, HandshakeState::Init);
    assert!(matches!(a, HandshakeAction::Stop));
    let (s, _) = step(HandshakeState::VersionSent, &HandshakeEvent::Start, 1, &v);
    assert_eq!(s, HandshakeState::VersionSent);
    let (s, _) = step(HandshakeState::AwaitingAck, &HandshakeEvent::Written, 1, &v);
    assert_eq!(s, HandshakeState::AwaitingAck);
    let event = HandshakeEvent::Received(version_header());
    let (s, _) = step(HandshakeState::Init, &event, 1, &v);
    assert_eq!(s, HandshakeState::Init);
}
