use groundwork::ticket::{decode, encode, PeerIdentity, SocketAddress, Ticket, TicketError};

fn ticket_with(identity: Vec<u8>, addrs: Vec<SocketAddress>, relay: Option<&str>) -> Ticket {
    Ticket {
        identity: PeerIdentity { bytes: identity },
        direct_addresses: addrs,
        relay_url: relay.map(|r| r.to_string()),
    }
}

fn same(a: &Ticket, b: &Ticket) -> bool {
    a.identity.bytes == b.identity.bytes
        && a.relay_url == b.relay_url
        && a.direct_addresses.len() == b.direct_addresses.len()
        && a
            .direct_addresses
            .iter()
            .zip(b.direct_addresses.iter())
            .all(|(x, y)| x.ip == y.ip && x.port == y.port)
}

#[test]
fn encode_without_addresses_is_exact() {
    let t = ticket_with((0u8..32).collect(), vec![], None);
    assert_eq!(
        encode(&t),
        "01000102030405060708090a0b0c0d0e0f101112131415161718191a1b1c1d1e1f000000"
    );
}

#[test]
fn encode_with_addresses_and_relay_is_exact() {
    let t = ticket_with(
        vec![7u8; 32],
        vec![
            SocketAddress { ip: vec![127, 0, 0, 1], port: 8000 },
            SocketAddress {
                ip: vec![0, 0, 0, 0, 0, 0, 0, 0, 0, 0, 0, 0, 0, 0, 0, 1],
                port: 80,
            },
        ],
        Some("r.io/"),
    );
    assert_eq!(
        encode(&t),
        "0107070707070707070707070707070707070707070707070707070707070707070002047f0000011f4010000000000000000000000000000000010050010005722e696f2f"
    );
}

#[test]
fn round_trip_without_addresses() {
    let t = ticket_with(vec![42u8; 32], vec![], None);
    let back = decode(&encode(&t)).unwrap();
    assert!(same(&t, &back));
    assert!(back.direct_addresses.is_empty());
}

#[test]
fn round_trip_with_addresses_and_relay() {
    let t = ticket_with(
        (100u8..132).collect(),
        vec![
            SocketAddress { ip: vec![192, 168, 1, 20], port: 4433 },
            SocketAddress { ip: (1u8..17).collect(), port: 65535 },
        ],
        Some("https://relay.example.org./"),
    );
    let back = decode(&encode(&t)).unwrap();
    assert!(same(&t, &back));
}

#[test]
fn round_trip_relay_only() {
    let t = ticket_with(vec![0u8; 32], vec![], Some("https://r.example/"));
    let back = decode(&encode(&t)).unwrap();
    assert!(same(&t, &back));
}

#[test]
fn decode_rejects_odd_length() {
    assert_eq!(decode("010").unwrap_err(), TicketError::Malformed);
}

#[test]
fn decode_rejects_non_hex() {
    assert_eq!(decode("zz").unwrap_err(), TicketError::Malformed);
    assert_eq!(decode("01AB").unwrap_err(), TicketError::Malformed);
    assert_eq!(decode("é1").unwrap_err(), TicketError::Malformed);
}

#[test]
fn decode_rejects_empty() {
    assert_eq!(decode("").unwrap_err(), TicketError::Malformed);
}

#[test]
fn decode_reports_unknown_version() {
    let text = "02000102030405060708090a0b0c0d0e0f101112131415161718191a1b1c1d1e1f000000";
    assert_eq!(decode(text).unwrap_err(), TicketError::UnknownVersion);
    assert_eq!(decode("ff").unwrap_err(), TicketError::UnknownVersion);
}

#[test]
fn decode_rejects_truncated_and_trailing() {
    let good = "01000102030405060708090a0b0c0d0e0f101112131415161718191a1b1c1d1e1f000000";
    assert!(decode(good).is_ok());
    assert_eq!(decode(&good[..good.len() - 2]).unwrap_err(), TicketError::Malformed);
    let longer = format!("{}00", good);
    assert_eq!(decode(&longer).unwrap_err(), TicketError::Malformed);
}

#[test]
fn decode_rejects_bad_address_kind() {
    // one address announced, with a length byte of 5
    let text = "01000102030405060708090a0b0c0d0e0f101112131415161718191a1b1c1d1e1f00010501020304050000";
    assert_eq!(decode(text).unwrap_err(), TicketError::Malformed);
}

#[test]
fn decode_rejects_non_ascii_relay() {
    // relay of one byte 0x80
    let text = "01000102030405060708090a0b0c0d0e0f101112131415161718191a1b1c1d1e1f000001000180";
    assert_eq!(decode(text).unwrap_err(), TicketError::Malformed);
}

#[test]
fn encodable_checks_every_limit() {
    assert!(ticket_with(vec![1u8; 32], vec![], Some("https://r/")).is_encodable());
    assert!(!ticket_with(vec![1u8; 31], vec![], None).is_encodable());
    let bad_ip = SocketAddress { ip: vec![1, 2, 3], port: 1 };
    assert!(!ticket_with(vec![1u8; 32], vec![bad_ip], None).is_encodable());
    assert!(!ticket_with(vec![1u8; 32], vec![], Some("https://ré/")).is_encodable());
    let long = "a".repeat(70000);
    assert!(!ticket_with(vec![1u8; 32], vec![], Some(&long)).is_encodable());
}
