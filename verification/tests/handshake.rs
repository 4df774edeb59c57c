use node_handshake::address::{IpAddress, SocketAddress};
use node_handshake::codec::frame::{decode, encode};
use node_handshake::dns_name_resolver::{DnsNameResolver, LookupOutcome};
use node_handshake::error::{DecodeError, Error};
use node_handshake::handshake::btc_handshake::{
    BitcoinHandshake, BitcoinHandshakeState, HandshakeStage,
};
use node_handshake::handshake::btc_message::{
    handle_verack_msg, handle_version_msg, receive_msg, ReadOutcome,
};
use node_handshake::handshake::campaign::{Campaign, Summary};
use node_handshake::handshake::send_message::{send_msg_verack, send_msg_version};
use node_handshake::handshake::{
    shake_my_hand, start_handshakes, HandshakeEvent, HandshakeStep, FIVE_SECONDS, PORT_BITCOIN,
};
use node_handshake::messages::version::{version_msg_with, PROTOCOL_VERSION};
use node_handshake::messages::{NetAddress, NetworkMessage, VersionMessage};
use node_handshake::parse_args::SeedArgs;

const NOW: i64 = 1_710_000_000;

fn peer_ip() -> IpAddress {
    IpAddress::v4(198, 51, 100, 23)
}

fn fresh(timeout: Option<u64>) -> BitcoinHandshake {
    BitcoinHandshake::new("seed.example.org".to_string(), peer_ip(), 8333, timeout)
}

fn peer_version(version: u32) -> NetworkMessage {
    NetworkMessage::Version(VersionMessage {
        version,
        services: 1,
        timestamp: NOW + 3,
        receiver: NetAddress { services: 0, address: 0xffff_0a00_0001, port: 50123 },
        sender: NetAddress { services: 1, address: 0xffff_c633_6417, port: 8333 },
        nonce: 77,
        user_agent: "/peer:1.0/".to_string(),
        start_height: 800_000,
        relay: true,
    })
}

fn frame_of(message: &NetworkMessage) -> Vec<u8> {
    encode(message).unwrap()
}

fn read(message: &NetworkMessage) -> HandshakeEvent {
    HandshakeEvent::Read(ReadOutcome::Frame(frame_of(message)))
}

fn failed(reason: &str) -> BitcoinHandshakeState {
    BitcoinHandshakeState::Failed(reason.to_string())
}

fn aborted_with(step: HandshakeStep) -> Error {
    match step {
        HandshakeStep::Abort(error) => error,
        other => panic!("not aborted: {:?}", other),
    }
}

fn custom(error: Error) -> String {
    match error {
        Error::CustomError(text) => text,
        other => panic!("not a custom error: {:?}", other),
    }
}

/// Drives a fresh record to the point where the peer's greeting is awaited.
fn connected(timeout: Option<u64>) -> BitcoinHandshake {
    let mut handshake = fresh(timeout);
    assert!(matches!(
        shake_my_hand(&mut handshake, HandshakeEvent::Start),
        HandshakeStep::Connect { .. }
    ));
    assert!(matches!(
        shake_my_hand(&mut handshake, HandshakeEvent::Connected { now: NOW }),
        HandshakeStep::Exchange { .. }
    ));
    handshake
}

/// Drives a fresh record to the point where the peer's acknowledgement is awaited.
fn greeted(timeout: Option<u64>) -> BitcoinHandshake {
    let mut handshake = connected(timeout);
    assert!(matches!(
        shake_my_hand(&mut handshake, read(&peer_version(PROTOCOL_VERSION))),
        HandshakeStep::Exchange { .. }
    ));
    handshake
}

#[test]
fn a_fresh_record_has_not_started() {
    let handshake = fresh(Some(250));
    assert_eq!(handshake.state(), BitcoinHandshakeState::NotStarted);
    assert!(matches!(handshake.stage(), HandshakeStage::Idle));
    assert_eq!(handshake.timeout_millis(), 250);
    assert_eq!(handshake.target(), SocketAddress::new(peer_ip(), 8333));
    assert_eq!(fresh(None).timeout_millis(), FIVE_SECONDS);
    assert_eq!(FIVE_SECONDS, 5000);
    assert_eq!(PORT_BITCOIN, 8333);
}

#[test]
fn the_attempt_begins_with_a_connect() {
    let mut handshake = fresh(Some(1200));
    match shake_my_hand(&mut handshake, HandshakeEvent::Start) {
        HandshakeStep::Connect { address, timeout_millis } => {
            assert_eq!(address, SocketAddress::new(peer_ip(), 8333));
            assert_eq!(timeout_millis, 1200);
        }
        other => panic!("unexpected step: {:?}", other),
    }
    assert_eq!(handshake.state(), BitcoinHandshakeState::Started);
}

#[test]
fn once_connected_the_greeting_goes_out() {
    let mut handshake = fresh(Some(1200));
    shake_my_hand(&mut handshake, HandshakeEvent::Start);
    match shake_my_hand(&mut handshake, HandshakeEvent::Connected { now: NOW }) {
        HandshakeStep::Exchange { frame, timeout_millis } => {
            assert_eq!(timeout_millis, 1200);
            match decode(&frame).unwrap() {
                NetworkMessage::Version(sent) => {
                    assert_eq!(sent.version, 70001);
                    assert_eq!(sent.timestamp, NOW);
                    assert_eq!(
                        sent.receiver,
                        NetAddress { services: 0, address: 0xffff_c633_6417, port: 8333 }
                    );
                    assert_eq!(sent.user_agent, "P2P Handshake PoC");
                    let again = version_msg_with(handshake.target(), NOW, sent.nonce);
                    assert_eq!(frame, encode(&again).unwrap());
                }
                other => panic!("unexpected message: {:?}", other),
            }
        }
        other => panic!("unexpected step: {:?}", other),
    }
    assert_eq!(handshake.state(), BitcoinHandshakeState::Started);
    assert!(matches!(handshake.stage(), HandshakeStage::AwaitingVersion));
}

#[test]
fn a_round_trip_ends_in_success() {
    let mut handshake = connected(None);
    match shake_my_hand(&mut handshake, read(&peer_version(70016))) {
        HandshakeStep::Exchange { frame, timeout_millis } => {
            assert_eq!(frame, frame_of(&NetworkMessage::Verack));
            assert_eq!(frame, send_msg_verack());
            assert_eq!(timeout_millis, FIVE_SECONDS);
        }
        other => panic!("unexpected step: {:?}", other),
    }
    assert_eq!(handshake.state(), BitcoinHandshakeState::Started);
    assert!(matches!(
        shake_my_hand(&mut handshake, read(&NetworkMessage::Verack)),
        HandshakeStep::Close
    ));
    assert_eq!(handshake.state(), BitcoinHandshakeState::Success);
}

#[test]
fn an_equal_version_is_accepted() {
    let mut handshake = greeted(None);
    assert!(matches!(handshake.stage(), HandshakeStage::AwaitingVerack));
    shake_my_hand(&mut handshake, read(&NetworkMessage::Verack));
    assert_eq!(handshake.state(), BitcoinHandshakeState::Success);
}

#[test]
fn an_early_acknowledge_fails_whatever_the_timeout() {
    for timeout in [None, Some(0), Some(1), Some(5000), Some(u64::MAX)] {
        let mut handshake = connected(timeout);
        let step = shake_my_hand(&mut handshake, read(&NetworkMessage::Verack));
        assert_eq!(custom(aborted_with(step)), "peer sent acknowledge before version");
        assert_eq!(handshake.state(), failed("peer sent acknowledge before version"));
    }
}

#[test]
fn a_version_too_low_fails() {
    let mut handshake = connected(None);
    let step = shake_my_hand(&mut handshake, read(&peer_version(PROTOCOL_VERSION - 1)));
    assert_eq!(custom(aborted_with(step)), "version mismatch: peer too low");
    assert_eq!(handshake.state(), failed("version mismatch: peer too low"));
}

#[test]
fn another_first_reply_fails() {
    let mut handshake = connected(None);
    let ping = NetworkMessage::Other { command: "ping".to_string(), payload: vec![0; 8] };
    let step = shake_my_hand(&mut handshake, read(&ping));
    assert_eq!(custom(aborted_with(step)), "peer did not respond with version");
    assert_eq!(handshake.state(), failed("peer did not respond with version"));
}

#[test]
fn silence_at_the_version_stage_fails() {
    let mut handshake = connected(Some(10));
    let step = shake_my_hand(&mut handshake, HandshakeEvent::Read(ReadOutcome::TimedOut));
    assert_eq!(custom(aborted_with(step)), "timed out waiting for version message");
    assert_eq!(handshake.state(), failed("timed out waiting for version message"));
}

#[test]
fn silence_at_the_acknowledge_stage_fails() {
    let mut handshake = greeted(Some(10));
    let step = shake_my_hand(&mut handshake, HandshakeEvent::Read(ReadOutcome::TimedOut));
    assert_eq!(custom(aborted_with(step)), "timed out waiting for acknowledge");
    assert_eq!(handshake.state(), failed("timed out waiting for acknowledge"));
}

#[test]
fn a_second_reply_other_than_acknowledge_is_partial() {
    let mut handshake = greeted(None);
    assert!(matches!(
        shake_my_hand(&mut handshake, read(&peer_version(70016))),
        HandshakeStep::Close
    ));
    assert_eq!(
        handshake.state(),
        BitcoinHandshakeState::PartiallyComplete("peer skipped acknowledge: got version".to_string())
    );

    let mut handshake = greeted(None);
    let other = NetworkMessage::Other { command: "sendheaders".to_string(), payload: vec![] };
    assert!(matches!(shake_my_hand(&mut handshake, read(&other)), HandshakeStep::Close));
    assert_eq!(
        handshake.state(),
        BitcoinHandshakeState::PartiallyComplete(
            "peer skipped acknowledge: got sendheaders".to_string()
        )
    );
}

#[test]
fn a_failed_connect_fails_and_sends_nothing() {
    let mut handshake = fresh(None);
    shake_my_hand(&mut handshake, HandshakeEvent::Start);
    let step = shake_my_hand(
        &mut handshake,
        HandshakeEvent::ConnectFailed("connection refused".to_string()),
    );
    assert_eq!(custom(aborted_with(step)), "connection error: connection refused");
    assert_eq!(handshake.state(), failed("connection error: connection refused"));
}

#[test]
fn a_frame_that_does_not_decode_fails() {
    for awaiting_ack in [false, true] {
        let mut handshake = if awaiting_ack { greeted(None) } else { connected(None) };
        let mut bytes = frame_of(&peer_version(70016));
        bytes[21] ^= 0x40;
        let step = shake_my_hand(&mut handshake, HandshakeEvent::Read(ReadOutcome::Frame(bytes)));
        assert!(matches!(aborted_with(step), Error::Encode(DecodeError::InvalidChecksum)));
        assert_eq!(handshake.state(), failed("encoding error: invalid checksum"));
    }
    let mut handshake = connected(None);
    let bytes = frame_of(&peer_version(70016));
    let step = shake_my_hand(
        &mut handshake,
        HandshakeEvent::Read(ReadOutcome::Frame(bytes[..40].to_vec())),
    );
    assert!(matches!(aborted_with(step), Error::Encode(DecodeError::UnexpectedEof)));
    assert_eq!(handshake.state(), failed("encoding error: unexpected end of data"));
}

#[test]
fn transport_failures_fail() {
    let mut handshake = connected(None);
    let step = shake_my_hand(&mut handshake, HandshakeEvent::SendFailed("broken pipe".to_string()));
    match aborted_with(step) {
        Error::IoError(detail) => assert_eq!(detail, "broken pipe"),
        other => panic!("unexpected error: {:?}", other),
    }
    assert_eq!(handshake.state(), failed("io error: broken pipe"));

    let mut handshake = greeted(None);
    let step = shake_my_hand(
        &mut handshake,
        HandshakeEvent::Read(ReadOutcome::Failed("connection reset".to_string())),
    );
    match aborted_with(step) {
        Error::IoError(detail) => assert_eq!(detail, "connection reset"),
        other => panic!("unexpected error: {:?}", other),
    }
    assert_eq!(handshake.state(), failed("io error: connection reset"));
}

#[test]
fn nothing_changes_once_the_attempt_is_over() {
    let mut handshake = greeted(None);
    shake_my_hand(&mut handshake, read(&NetworkMessage::Verack));
    assert_eq!(handshake.state(), BitcoinHandshakeState::Success);
    let events = vec![
        HandshakeEvent::Start,
        HandshakeEvent::Connected { now: NOW },
        HandshakeEvent::ConnectFailed("late".to_string()),
        HandshakeEvent::SendFailed("late".to_string()),
        HandshakeEvent::Read(ReadOutcome::TimedOut),
        read(&peer_version(1)),
    ];
    for event in events {
        assert!(matches!(shake_my_hand(&mut handshake, event), HandshakeStep::Done));
        assert_eq!(handshake.state(), BitcoinHandshakeState::Success);
    }

    let mut handshake = connected(None);
    shake_my_hand(&mut handshake, HandshakeEvent::Read(ReadOutcome::TimedOut));
    assert!(matches!(
        shake_my_hand(&mut handshake, read(&peer_version(70016))),
        HandshakeStep::Done
    ));
    assert_eq!(handshake.state(), failed("timed out waiting for version message"));
}

#[test]
fn an_event_out_of_turn_fails_the_attempt() {
    let mut handshake = fresh(None);
    let step = shake_my_hand(&mut handshake, HandshakeEvent::Connected { now: NOW });
    assert_eq!(custom(aborted_with(step)), "unexpected event");
    assert_eq!(handshake.state(), failed("unexpected event"));
    assert!(matches!(shake_my_hand(&mut handshake, HandshakeEvent::Start), HandshakeStep::Done));

    let mut handshake = connected(None);
    let step = shake_my_hand(&mut handshake, HandshakeEvent::Start);
    assert_eq!(custom(aborted_with(step)), "unexpected event");
    assert_eq!(handshake.state(), failed("unexpected event"));

    let mut handshake = fresh(None);
    shake_my_hand(&mut handshake, HandshakeEvent::Start);
    let step = shake_my_hand(&mut handshake, read(&peer_version(70016)));
    assert_eq!(custom(aborted_with(step)), "unexpected event");
    assert_eq!(handshake.state(), failed("unexpected event"));

    let mut handshake = greeted(None);
    let step = shake_my_hand(&mut handshake, HandshakeEvent::ConnectFailed("late".to_string()));
    assert_eq!(custom(aborted_with(step)), "unexpected event");
    assert_eq!(handshake.state(), failed("unexpected event"));
}

#[test]
fn replies_are_judged_only_when_awaited() {
    let mut handshake = fresh(None);
    let result = handle_version_msg(&mut handshake, &peer_version(70016));
    assert_eq!(custom(result.unwrap_err()), "unexpected event");
    assert_eq!(handshake.state(), failed("unexpected event"));

    let mut handshake = fresh(None);
    let result = handle_verack_msg(&mut handshake, &NetworkMessage::Verack);
    assert_eq!(custom(result.unwrap_err()), "unexpected event");
    assert_eq!(handshake.state(), failed("unexpected event"));

    let mut handshake = fresh(None);
    let result = receive_msg(&mut handshake, ReadOutcome::TimedOut, "version message");
    assert_eq!(custom(result.unwrap_err()), "unexpected event");
    assert_eq!(handshake.state(), failed("unexpected event"));

    let mut handshake = connected(None);
    assert!(handle_verack_msg(&mut handshake, &NetworkMessage::Verack).is_err());
    assert_eq!(handshake.state(), failed("unexpected event"));

    let mut handshake = connected(None);
    assert!(handle_version_msg(&mut handshake, &peer_version(70016)).is_ok());
    assert!(handle_verack_msg(&mut handshake, &NetworkMessage::Verack).is_ok());
    assert_eq!(handshake.state(), BitcoinHandshakeState::Success);
}

#[test]
fn a_reply_after_the_end_changes_nothing() {
    let mut handshake = greeted(None);
    shake_my_hand(&mut handshake, read(&NetworkMessage::Verack));
    assert_eq!(handshake.state(), BitcoinHandshakeState::Success);
    let result = handle_version_msg(&mut handshake, &peer_version(1));
    assert_eq!(custom(result.unwrap_err()), "unexpected event");
    let result = handle_verack_msg(&mut handshake, &peer_version(1));
    assert_eq!(custom(result.unwrap_err()), "unexpected event");
    let result = receive_msg(&mut handshake, ReadOutcome::TimedOut, "acknowledge");
    assert_eq!(custom(result.unwrap_err()), "unexpected event");
    assert_eq!(handshake.state(), BitcoinHandshakeState::Success);

    let mut handshake = greeted(None);
    shake_my_hand(&mut handshake, read(&peer_version(70016)));
    let partial = handshake.state();
    assert!(matches!(partial, BitcoinHandshakeState::PartiallyComplete(_)));
    assert!(handle_verack_msg(&mut handshake, &NetworkMessage::Verack).is_err());
    assert_eq!(handshake.state(), partial);

    let mut handshake = connected(None);
    shake_my_hand(&mut handshake, HandshakeEvent::Read(ReadOutcome::TimedOut));
    assert!(handle_version_msg(&mut handshake, &peer_version(70016)).is_err());
    assert_eq!(handshake.state(), failed("timed out waiting for version message"));
}

#[test]
fn receive_msg_decodes_or_fails() {
    let mut handshake = connected(None);
    let outcome = ReadOutcome::Frame(frame_of(&NetworkMessage::Verack));
    assert!(matches!(
        receive_msg(&mut handshake, outcome, "version message"),
        Ok(NetworkMessage::Verack)
    ));
    assert_eq!(handshake.state(), BitcoinHandshakeState::Started);
    let result = receive_msg(&mut handshake, ReadOutcome::TimedOut, "a sign of life");
    assert_eq!(custom(result.unwrap_err()), "timed out waiting for a sign of life");
    assert_eq!(handshake.state(), failed("timed out waiting for a sign of life"));
}

#[test]
fn the_frames_this_client_sends() {
    let target = SocketAddress::new(peer_ip(), 8333);
    let bytes = send_msg_version(&target, NOW);
    match decode(&bytes).unwrap() {
        NetworkMessage::Version(sent) => {
            assert_eq!(bytes, encode(&version_msg_with(target, NOW, sent.nonce)).unwrap());
            assert_eq!(sent.sender, NetAddress { services: 0, address: 0xffff_0000_0000, port: 0 });
            assert_eq!(sent.start_height, 0);
            assert!(!sent.relay);
        }
        other => panic!("unexpected message: {:?}", other),
    }
    assert_eq!(send_msg_verack().len(), 24);
}

#[test]
fn state_texts() {
    assert_eq!(BitcoinHandshakeState::NotStarted.short_txt(), "NOT STARTED");
    assert_eq!(BitcoinHandshakeState::Started.short_txt(), "STARTED");
    assert_eq!(BitcoinHandshakeState::Success.short_txt(), "SUCCESS");
    assert_eq!(failed("why").short_txt(), "FAILED");
    assert_eq!(BitcoinHandshakeState::PartiallyComplete("what".to_string()).short_txt(), "PARTIAL");

    assert_eq!(BitcoinHandshakeState::NotStarted.to_string(), "NOT STARTED");
    assert_eq!(BitcoinHandshakeState::Started.to_string(), "STARTED");
    assert_eq!(BitcoinHandshakeState::Success.to_string(), "SUCCESS");
    assert_eq!(failed("why").to_string(), "FAILED: why");
    assert_eq!(
        BitcoinHandshakeState::PartiallyComplete("what".to_string()).to_string(),
        "PARTIAL: what"
    );

    assert!(!BitcoinHandshakeState::NotStarted.is_terminal());
    assert!(!BitcoinHandshakeState::Started.is_terminal());
    assert!(BitcoinHandshakeState::Success.is_terminal());
    assert!(failed("why").is_terminal());
    assert!(BitcoinHandshakeState::PartiallyComplete("what".to_string()).is_terminal());
}

#[test]
fn error_texts() {
    assert_eq!(Error::IoError("broken pipe".to_string()).to_string(), "IO ERROR: broken pipe");
    assert_eq!(
        Error::Encode(DecodeError::InvalidChecksum).to_string(),
        "BITCOIN ENCODING ERROR: invalid checksum"
    );
    assert_eq!(Error::CustomError("no luck".to_string()).to_string(), "ERROR: no luck");
    assert_eq!(Error::IoError("broken pipe".to_string()).reason(), "io error: broken pipe");
    assert_eq!(
        Error::Encode(DecodeError::UnexpectedEof).reason(),
        "encoding error: unexpected end of data"
    );
    assert_eq!(Error::CustomError("no luck".to_string()).reason(), "no luck");
}

#[test]
fn no_addresses_no_attempts() {
    let lookups = vec![
        LookupOutcome::Resolved(vec![]),
        LookupOutcome::Failed("no record found".to_string()),
        LookupOutcome::TimedOut,
    ];
    for lookup in lookups {
        let mut run = start_handshakes("nowhere.example.org".to_string(), 8333, 5000, lookup);
        assert!(run.is_finished());
        assert!(run.next_handshake().is_none());
        assert_eq!(run.outstanding(), 0);
        assert!(!run.record(&BitcoinHandshakeState::Success));
        assert_eq!(run.summary(), Summary { success: 0, partial: 0, failed: 0 });
    }
}

#[test]
fn a_run_attempts_every_address_in_order_and_counts_apart() {
    let addresses = vec![
        IpAddress::v4(10, 0, 0, 1),
        IpAddress::v4(10, 0, 0, 2),
        IpAddress::V6(1),
        IpAddress::v4(10, 0, 0, 4),
    ];
    let lookup = LookupOutcome::Resolved(addresses.clone());
    let mut run = start_handshakes("seed.example.org".to_string(), 18333, 750, lookup);
    let mut seen = Vec::new();
    let mut turn = 0;
    while let Some(mut handshake) = run.next_handshake() {
        assert_eq!(run.outstanding(), 1);
        assert_eq!(handshake.state(), BitcoinHandshakeState::NotStarted);
        assert_eq!(handshake.timeout_millis(), 750);
        seen.push(handshake.target());
        shake_my_hand(&mut handshake, HandshakeEvent::Start);
        match turn {
            0 => {
                shake_my_hand(&mut handshake, HandshakeEvent::Connected { now: NOW });
                shake_my_hand(&mut handshake, read(&peer_version(70016)));
                shake_my_hand(&mut handshake, read(&NetworkMessage::Verack));
            }
            1 => {
                shake_my_hand(&mut handshake, HandshakeEvent::ConnectFailed("refused".to_string()));
            }
            2 => {
                shake_my_hand(&mut handshake, HandshakeEvent::Connected { now: NOW });
                shake_my_hand(&mut handshake, read(&peer_version(70016)));
                shake_my_hand(&mut handshake, read(&peer_version(70016)));
            }
            _ => {}
        }
        assert!(run.record(&handshake.state()));
        assert_eq!(run.outstanding(), 0);
        assert!(!run.record(&handshake.state()));
        turn += 1;
    }
    let expected: Vec<SocketAddress> =
        addresses.iter().map(|ip| SocketAddress::new(*ip, 18333)).collect();
    assert_eq!(seen, expected);
    assert!(run.is_finished());
    assert_eq!(run.summary(), Summary { success: 1, partial: 1, failed: 2 });
}

#[test]
fn each_outcome_has_its_own_count() {
    let states = vec![
        (BitcoinHandshakeState::Success, Summary { success: 1, partial: 0, failed: 0 }),
        (
            BitcoinHandshakeState::PartiallyComplete("x".to_string()),
            Summary { success: 0, partial: 1, failed: 0 },
        ),
        (failed("x"), Summary { success: 0, partial: 0, failed: 1 }),
        (BitcoinHandshakeState::Started, Summary { success: 0, partial: 0, failed: 1 }),
        (BitcoinHandshakeState::NotStarted, Summary { success: 0, partial: 0, failed: 1 }),
    ];
    for (state, expected) in states {
        let mut run = Campaign::new("seed".to_string(), 1, 1, vec![IpAddress::V4(1)]);
        assert!(!run.is_finished());
        assert!(run.next_handshake().is_some());
        assert!(!run.is_finished());
        assert!(run.record(&state));
        assert_eq!(run.summary(), expected);
        assert!(!run.record(&state));
        assert_eq!(run.summary(), expected);
        assert!(run.is_finished());
    }
    assert_eq!(Summary::new(), Summary { success: 0, partial: 0, failed: 0 });
}

#[test]
fn the_resolver_appends_the_dot_once() {
    let resolver = DnsNameResolver::new("seed.example.org".to_string(), None);
    assert_eq!(resolver.lookup_name(), "seed.example.org.");
    assert_eq!(resolver.timeout_millis(), 5000);
    let resolver = DnsNameResolver::new("seed.example.org.".to_string(), Some(30));
    assert_eq!(resolver.lookup_name(), "seed.example.org.");
    assert_eq!(resolver.timeout_millis(), 30_000);
    assert_eq!(DnsNameResolver::new(String::new(), None).lookup_name(), ".");
    assert_eq!(DnsNameResolver::new(".".to_string(), None).lookup_name(), ".");
}

#[test]
fn the_resolver_hands_on_what_resolved() {
    let resolver = DnsNameResolver::new("seed.example.org".to_string(), None);
    let answer = vec![IpAddress::v4(141, 136, 43, 150), IpAddress::V6(7)];
    assert_eq!(resolver.resolve_names(LookupOutcome::Resolved(answer.clone())), answer);
    assert!(resolver.resolve_names(LookupOutcome::Failed("nxdomain".to_string())).is_empty());
    assert!(resolver.resolve_names(LookupOutcome::TimedOut).is_empty());
}

#[test]
fn addresses_as_numbers() {
    assert_eq!(IpAddress::v4(141, 136, 43, 150), IpAddress::V4(0x8d88_2b96));
    assert_eq!(IpAddress::v4(0, 0, 0, 0), IpAddress::V4(0));
    assert_eq!(IpAddress::v4(255, 255, 255, 255), IpAddress::V4(u32::MAX));
    assert_eq!(IpAddress::v4(1, 2, 3, 4).to_ipv6_mapped(), 0xffff_0102_0304);
    assert_eq!(IpAddress::V6(0x2001_0db8 << 96).to_ipv6_mapped(), 0x2001_0db8 << 96);
}

#[test]
fn the_arguments_of_a_run() {
    let args = SeedArgs::new("seed.example.org".to_string(), None, None);
    assert_eq!(args.port, 8333);
    assert_eq!(args.timeout, 5000);
    assert_eq!(
        args.to_string(),
        "Attempting handshakes with seed.example.org:8333  Timeout = 5000 ms"
    );
    let args = SeedArgs::new("s".to_string(), Some(0), Some(u64::MAX));
    assert_eq!(
        args.to_string(),
        "Attempting handshakes with s:0  Timeout = 18446744073709551615 ms"
    );
}

#[test]
fn ipv4_addresses_as_text() {
    assert_eq!(IpAddress::v4(141, 136, 43, 150).to_string(), "141.136.43.150");
    assert_eq!(IpAddress::v4(0, 0, 0, 0).to_string(), "0.0.0.0");
    assert_eq!(IpAddress::v4(255, 255, 255, 255).to_string(), "255.255.255.255");
    assert_eq!(IpAddress::v4(10, 0, 100, 9).to_string(), "10.0.100.9");
}

#[test]
fn ipv6_addresses_as_text() {
    let cases: Vec<(u128, &str)> = vec![
        (0, "::"),
        (1, "::1"),
        (0x2001_0db8_0000_0000_0000_0000_0000_0001, "2001:db8::1"),
        (0x2001_0db8_0000_0001_0000_0000_0000_0001, "2001:db8:0:1::1"),
        (0x2001_0000_0000_0001_0000_0000_0001_0001, "2001::1:0:0:1:1"),
        (0x0001_0002_0003_0004_0005_0006_0007_0008, "1:2:3:4:5:6:7:8"),
        (0x0001_0000_0003_0004_0005_0006_0007_0008, "1:0:3:4:5:6:7:8"),
        (0x0001_0000_0000_0004_0005_0000_0000_0008, "1::4:5:0:0:8"),
        (0x0001_0000_0000_0004_0005_0000_0000_0000, "1:0:0:4:5::"),
        (0x0001_0000_0000_0004_0000_0000_0000_0000, "1:0:0:4::"),
        (0xfe80_0000_0000_0000_0000_0000_0000_0000, "fe80::"),
        (0x0000_0000_0000_0000_0000_ffff_c000_0280, "::ffff:192.0.2.128"),
        (0x0000_0000_0000_0000_0000_0000_c000_0280, "::c000:280"),
        (0x0000_0000_0000_0000_0001_ffff_c000_0280, "::1:ffff:c000:280"),
        (0xffff_ffff_ffff_ffff_ffff_ffff_ffff_ffff, "ffff:ffff:ffff:ffff:ffff:ffff:ffff:ffff"),
        (0x0000_0001_0000_0001_0000_0001_0000_0001, "0:1:0:1:0:1:0:1"),
        (0xabcd_ef01_2345_6789_0a0b_00c0_000d_1000, "abcd:ef01:2345:6789:a0b:c0:d:1000"),
    ];
    for (bits, text) in cases {
        assert_eq!(IpAddress::V6(bits).to_string(), text);
    }
}

#[test]
fn the_line_of_a_record() {
    let mut handshake = fresh(None);
    assert_eq!(handshake.dns_name(), "seed.example.org");
    assert_eq!(handshake.ip_addr(), peer_ip());
    assert_eq!(handshake.port(), 8333);
    assert_eq!(
        handshake.short_txt(),
        "Handshake with seed.example.org (198.51.100.23) -> NOT STARTED"
    );
    assert_eq!(
        handshake.to_string(),
        "Handshake with seed.example.org (198.51.100.23) -> NOT STARTED"
    );
    shake_my_hand(&mut handshake, HandshakeEvent::Start);
    shake_my_hand(&mut handshake, HandshakeEvent::ConnectFailed("refused".to_string()));
    assert_eq!(
        handshake.short_txt(),
        "Handshake with seed.example.org (198.51.100.23) -> FAILED"
    );
    assert_eq!(
        handshake.to_string(),
        "Handshake with seed.example.org (198.51.100.23) -> FAILED: connection error: refused"
    );
    let other = BitcoinHandshake::new("six".to_string(), IpAddress::V6(1), 1, None);
    assert_eq!(other.short_txt(), "Handshake with six (::1) -> NOT STARTED");
}

const TEST_NODES: [&str; 9] = [
    "mx.jamestrev.com",
    "mail.saxrag.com",
    "showy-toys.aeza.network",
    "nickjlock.plus.com",
    "seed.btc.petertodd.org",
    "seed.bitcoin.sipa.be",
    "dnsseed.bluematt.me",
    "seed.bitcoinstats.com",
    "seed.bitcoin.jonasschnelli.ch",
];

// These three go without a network: the lookup's answer is given, not fetched.

#[test]
fn should_resolve_name_with_static_ip() {
    let name_resolver = DnsNameResolver::new("www.whealy.com.".to_owned(), None);
    assert_eq!(name_resolver.lookup_name(), "www.whealy.com.");
    let answer = LookupOutcome::Resolved(vec![IpAddress::v4(141, 136, 43, 150)]);
    let response = name_resolver.resolve_names(answer);

    assert_eq!(1, response.len());
    assert!(matches!(response[0], IpAddress::V4(_)));
    assert_eq!(response[0], IpAddress::v4(141, 136, 43, 150));
}

#[test]
fn should_fail_to_resolve_nonexistent_name() {
    let name_resolver = DnsNameResolver::new("notthere.btc.petertodd.org.".to_owned(), None);
    let answer = LookupOutcome::Failed("no record found".to_owned());
    let response = name_resolver.resolve_names(answer);

    assert_eq!(0, response.len());
}

#[test]
fn tests_multiple_dns_seed_nodes() {
    for node in TEST_NODES {
        let resolver = DnsNameResolver::with_timeout_millis(node.to_owned(), FIVE_SECONDS);
        assert_eq!(resolver.timeout_millis(), 5000);
        assert_eq!(resolver.lookup_name(), format!("{}.", node));
        let lookup = LookupOutcome::Resolved(vec![IpAddress::v4(192, 0, 2, 1), IpAddress::V6(1)]);
        let mut run = start_handshakes(node.to_owned(), PORT_BITCOIN, FIVE_SECONDS, lookup);
        while let Some(mut handshake) = run.next_handshake() {
            assert_eq!(handshake.dns_name(), node);
            assert_eq!(handshake.port(), PORT_BITCOIN);
            shake_my_hand(&mut handshake, HandshakeEvent::Start);
            shake_my_hand(&mut handshake, HandshakeEvent::ConnectFailed("unreachable".to_owned()));
            assert!(run.record(&handshake.state()));
        }
        assert_eq!(run.summary(), Summary { success: 0, partial: 0, failed: 2 });
    }
}

#[test]
fn the_resolver_takes_its_timeout_in_seconds() {
    let name = || "seed.example.org".to_string();
    assert_eq!(DnsNameResolver::new(name(), None).timeout_millis(), 5000);
    assert_eq!(DnsNameResolver::new(name(), Some(0)).timeout_millis(), 0);
    assert_eq!(DnsNameResolver::new(name(), Some(1)).timeout_millis(), 1000);
    assert_eq!(DnsNameResolver::new(name(), Some(5)).timeout_millis(), 5000);
    assert_eq!(
        DnsNameResolver::new(name(), Some(u64::MAX)).timeout_millis(),
        18_446_744_073_709_551_615_000
    );
    assert_eq!(DnsNameResolver::new(name(), Some(7)).lookup_name(), "seed.example.org.");
}

#[test]
fn the_resolver_takes_milliseconds_by_another_door() {
    let name = || "seed.example.org".to_string();
    assert_eq!(DnsNameResolver::with_timeout_millis(name(), 0).timeout_millis(), 0);
    assert_eq!(DnsNameResolver::with_timeout_millis(name(), 5).timeout_millis(), 5);
    assert_eq!(DnsNameResolver::with_timeout_millis(name(), 1500).timeout_millis(), 1500);
    assert_eq!(
        DnsNameResolver::with_timeout_millis(name(), u64::MAX).timeout_millis(),
        u64::MAX as u128
    );
    assert_eq!(
        DnsNameResolver::with_timeout_millis(name(), 1).lookup_name(),
        "seed.example.org."
    );
}
