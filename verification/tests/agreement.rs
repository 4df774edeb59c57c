use bitcoin::consensus::encode::deserialize_partial;
use bitcoin::p2p::message::{NetworkMessage as TheirMessage, RawNetworkMessage};
use node_handshake::codec::digest::checksum_of;
use node_handshake::codec::frame::{decode, encode};
use node_handshake::codec::payload::encode_version;
use node_handshake::messages::{NetAddress, NetworkMessage, VersionMessage};

struct Dice(u64);

impl Dice {
    fn roll(&mut self) -> u64 {
        self.0 = self.0.wrapping_mul(6364136223846793005).wrapping_add(1442695040888963407);
        self.0 >> 33
    }

    fn below(&mut self, n: usize) -> usize {
        (self.roll() % n as u64) as usize
    }
}

fn some_version(dice: &mut Dice) -> VersionMessage {
    let agents = ["", "/Satoshi:25.0.0/", "P2P Handshake PoC", "\u{e9}t\u{e9} \u{1f980}"];
    let mut user_agent = agents[dice.below(agents.len())].to_string();
    if dice.below(8) == 0 {
        user_agent = "a".repeat(250 + dice.below(10));
    }
    VersionMessage {
        version: dice.roll() as u32,
        services: dice.roll() << 31 | dice.roll(),
        timestamp: (dice.roll() << 31 | dice.roll()) as i64,
        receiver: NetAddress {
            services: dice.roll(),
            address: (dice.roll() as u128) << 96 | (dice.roll() as u128) << 48 | dice.roll() as u128,
            port: dice.roll() as u16,
        },
        sender: NetAddress {
            services: dice.roll(),
            address: 0xffff_0000_0000 | (dice.roll() as u32) as u128,
            port: dice.roll() as u16,
        },
        nonce: dice.roll() << 31 | dice.roll(),
        user_agent,
        start_height: dice.roll() as i32,
        relay: dice.below(2) == 1,
    }
}

fn framed(command: &[u8], payload: &[u8]) -> Vec<u8> {
    let mut bytes = vec![0xf9, 0xbe, 0xb4, 0xd9];
    let mut field = [0u8; 12];
    field[..command.len()].copy_from_slice(command);
    bytes.extend_from_slice(&field);
    bytes.extend_from_slice(&(payload.len() as u32).to_le_bytes());
    bytes.extend_from_slice(&checksum_of(payload));
    bytes.extend_from_slice(payload);
    bytes
}

fn words(address: u128) -> [u16; 8] {
    let mut words = [0u16; 8];
    for (i, word) in words.iter_mut().enumerate() {
        *word = (address >> (16 * (7 - i))) as u16;
    }
    words
}

/// Holds what this library reads out of `bytes` against what the network
/// library reads out of them.
fn assert_agreement(bytes: &[u8]) {
    let ours = decode(bytes);
    let theirs = deserialize_partial::<RawNetworkMessage>(bytes);
    match (ours, theirs) {
        (Err(_), Err(_)) => {}
        (Ok(NetworkMessage::Verack), Ok((raw, _))) => {
            assert!(matches!(raw.payload(), TheirMessage::Verack));
        }
        (Ok(NetworkMessage::Version(version)), Ok((raw, consumed))) => {
            assert_eq!(consumed, 24 + encode_version(&version).len());
            match raw.payload() {
                TheirMessage::Version(their) => {
                    assert_eq!(version.version, their.version);
                    assert_eq!(version.services, their.services.to_u64());
                    assert_eq!(version.timestamp, their.timestamp);
                    assert_eq!(version.receiver.services, their.receiver.services.to_u64());
                    assert_eq!(words(version.receiver.address), their.receiver.address);
                    assert_eq!(version.receiver.port, their.receiver.port);
                    assert_eq!(version.sender.services, their.sender.services.to_u64());
                    assert_eq!(words(version.sender.address), their.sender.address);
                    assert_eq!(version.sender.port, their.sender.port);
                    assert_eq!(version.nonce, their.nonce);
                    assert_eq!(version.user_agent, their.user_agent);
                    assert_eq!(version.start_height, their.start_height);
                    assert_eq!(version.relay, their.relay);
                }
                other => panic!("they read {:?}", other),
            }
        }
        (ours, theirs) => panic!("we read {:?}, they read {:?}", ours, theirs),
    }
}

#[test]
fn greetings_read_alike() {
    let mut dice = Dice(0x5eed);
    for _ in 0..300 {
        let version = some_version(&mut dice);
        let bytes = encode(&NetworkMessage::Version(version)).unwrap();
        assert!(decode(&bytes).is_ok());
        assert_agreement(&bytes);
    }
}

#[test]
fn damaged_payloads_read_alike() {
    let mut dice = Dice(0xda3a9ed);
    let mut accepted = 0;
    for _ in 0..3000 {
        let mut payload = encode_version(&some_version(&mut dice));
        match dice.below(6) {
            0 => payload.truncate(dice.below(payload.len() + 1)),
            1 => {
                let at = dice.below(payload.len());
                payload[at] = dice.roll() as u8;
            }
            2 => {
                let at = 80 + dice.below(payload.len() - 80);
                payload[at] = dice.roll() as u8;
            }
            3 => {
                for _ in 0..1 + dice.below(3) {
                    payload.push(dice.roll() as u8);
                }
            }
            4 => {
                let markers = [0xfc, 0xfd, 0xfe, 0xff, 0x00, 0x01];
                payload[80] = markers[dice.below(markers.len())];
            }
            _ => {
                let at = 80 + dice.below(payload.len() - 80);
                payload.remove(at);
            }
        }
        let bytes = framed(b"version", &payload);
        if decode(&bytes).is_ok() {
            accepted += 1;
        }
        assert_agreement(&bytes);
    }
    assert!(accepted > 100 && accepted < 2900);
}

#[test]
fn damaged_headers_read_alike() {
    let mut dice = Dice(0x4eade5);
    for _ in 0..3000 {
        let message = if dice.below(3) == 0 {
            NetworkMessage::Verack
        } else {
            NetworkMessage::Version(some_version(&mut dice))
        };
        let mut bytes = encode(&message).unwrap();
        match dice.below(4) {
            0 => bytes.truncate(dice.below(bytes.len() + 1)),
            1 => {
                let at = 16 + dice.below(8);
                bytes[at] ^= 1 << dice.below(8);
            }
            2 => {
                let at = dice.below(4);
                bytes[at] = dice.roll() as u8;
            }
            _ => {
                for _ in 0..1 + dice.below(30) {
                    bytes.push(dice.roll() as u8);
                }
            }
        }
        assert_agreement(&bytes);
    }
}

#[test]
fn acknowledgements_with_a_payload_read_alike() {
    for payload in [vec![], vec![0], vec![1, 2, 3]] {
        assert_agreement(&framed(b"verack", &payload));
    }
}
