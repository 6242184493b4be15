use std::collections::HashMap;

use tracker_connection_id::config::{HttpApiConfig, HttpTrackerConfig, UdpTrackerConfig};
use tracker_connection_id::digest::concat_bytes;
use tracker_connection_id::int_bytes::i64_from_le_prefix;
use tracker_connection_id::{
    get_connection_id, verify_connection_id, ByteArray32, ConnectionId, IpAddress, RemoteAddress,
    TimeBoundPepper,
};

const FIXTURE_TIME: u64 = 946684800;

fn zero_secret() -> ByteArray32 {
    ByteArray32::new([0u8; 32])
}

fn localhost(port: u16) -> RemoteAddress {
    RemoteAddress::new(IpAddress::V4([127, 0, 0, 1]), port)
}

#[test]
fn ipv6_address_fills_the_last_sixteen_bytes() {
    let octets: [u8; 16] = [1, 2, 3, 4, 5, 6, 7, 8, 9, 10, 11, 12, 13, 14, 15, 16];
    let mut expected = [0u8; 32];
    expected[16..].copy_from_slice(&octets);
    assert_eq!(ByteArray32::from(IpAddress::V6(octets)), ByteArray32::new(expected));
}

#[test]
fn number_is_written_big_endian_in_the_last_eight_bytes() {
    let mut expected = [0u8; 32];
    expected[24..].copy_from_slice(&0x0102_0304_0506_0708u64.to_be_bytes());
    assert_eq!(ByteArray32::from(0x0102_0304_0506_0708u64), ByteArray32::new(expected));
}

#[test]
fn bitor_combines_ip_and_port_blocks_with_overlap() {
    let ip = ByteArray32::from(IpAddress::V4([127, 0, 0x01, 0x10]));
    let port = ByteArray32::from(0x0203u16);
    let mut expected = [0u8; 32];
    expected[28] = 127;
    expected[30] = 0x01 | 0x02;
    expected[31] = 0x10 | 0x03;
    assert_eq!(ip.bitor(&port), ByteArray32::new(expected));
    assert_eq!(ip.bitor(&port).as_generic_byte_array(), expected);
}

#[test]
fn overlapping_endpoints_share_an_id() {
    // The address and port blocks share their last two bytes.
    let secret = zero_secret();
    let a = RemoteAddress::new(IpAddress::V4([127, 0, 0, 1]), 0);
    let b = RemoteAddress::new(IpAddress::V4([127, 0, 0, 0]), 1);
    assert_eq!(
        get_connection_id(&secret, &a, FIXTURE_TIME),
        get_connection_id(&secret, &b, FIXTURE_TIME)
    );
}

#[test]
fn le_prefix_is_read_as_signed_little_endian() {
    let mut b = [0xAAu8; 32];
    b[..8].copy_from_slice(&[1, 0, 0, 0, 0, 0, 0, 0]);
    assert_eq!(i64_from_le_prefix(&b), 1);
    b[..8].copy_from_slice(&[0xFF; 8]);
    assert_eq!(i64_from_le_prefix(&b), -1);
    b[..8].copy_from_slice(&[0, 0, 0, 0, 0, 0, 0, 0x80]);
    assert_eq!(i64_from_le_prefix(&b), i64::MIN);
    b[..8].copy_from_slice(&[0x08, 0x07, 0x06, 0x05, 0x04, 0x03, 0x02, 0x01]);
    assert_eq!(i64_from_le_prefix(&b), 0x0102_0304_0506_0708);
}

#[test]
fn concat_keeps_both_parts_in_order() {
    assert_eq!(concat_bytes(&[1, 2], &[3]), vec![1, 2, 3]);
    assert_eq!(concat_bytes(&[], &[]), Vec::<u8>::new());
}

#[test]
fn pepper_is_stable_within_a_slot_and_changes_between_slots() {
    let secret = zero_secret();
    let first = TimeBoundPepper::new(&secret, 240);
    assert_eq!(first.get_pepper(), TimeBoundPepper::new(&secret, 359).get_pepper());
    assert_ne!(first.get_pepper(), TimeBoundPepper::new(&secret, 360).get_pepper());
    assert_ne!(first.get_pepper(), secret);
}

#[test]
fn pepper_depends_on_the_secret() {
    let other = ByteArray32::new([7u8; 32]);
    assert_ne!(
        TimeBoundPepper::new(&zero_secret(), FIXTURE_TIME).get_pepper(),
        TimeBoundPepper::new(&other, FIXTURE_TIME).get_pepper()
    );
}

#[test]
fn fixture_holds_until_the_end_of_the_slot() {
    let id = get_connection_id(&zero_secret(), &localhost(8080), FIXTURE_TIME + 119);
    assert_eq!(id, ConnectionId(6587457301375199145));
}

#[test]
fn verify_accepts_the_whole_window_and_rejects_after() {
    let secret = zero_secret();
    let addr = localhost(8080);
    let t = FIXTURE_TIME + 60;
    let id = get_connection_id(&secret, &addr, t);
    for k in [0u64, 1, 59, 119, 179] {
        assert_eq!(verify_connection_id(id, &secret, &addr, t + k), Ok(()));
    }
    for k in [180u64, 240, 1000] {
        assert_eq!(verify_connection_id(id, &secret, &addr, t + k), Err(()));
    }
}

#[test]
fn verify_at_a_slot_boundary_accepts_only_one_more_slot() {
    let secret = zero_secret();
    let addr = localhost(8080);
    let id = get_connection_id(&secret, &addr, FIXTURE_TIME + 119);
    assert_eq!(verify_connection_id(id, &secret, &addr, FIXTURE_TIME + 120), Ok(()));
    assert_eq!(verify_connection_id(id, &secret, &addr, FIXTURE_TIME + 239), Ok(()));
    assert_eq!(verify_connection_id(id, &secret, &addr, FIXTURE_TIME + 240), Err(()));
}

#[test]
fn verify_rejects_another_endpoint() {
    let secret = zero_secret();
    let id = get_connection_id(&secret, &localhost(1), FIXTURE_TIME);
    assert_eq!(verify_connection_id(id, &secret, &localhost(2), FIXTURE_TIME), Err(()));
    let v6 = RemoteAddress::new(IpAddress::V6([0; 16]), 1);
    assert_eq!(verify_connection_id(id, &secret, &v6, FIXTURE_TIME), Err(()));
}

#[test]
fn verify_saturates_before_the_first_full_slot() {
    let secret = zero_secret();
    let addr = localhost(1);
    let id = get_connection_id(&secret, &addr, 0);
    assert_eq!(verify_connection_id(id, &secret, &addr, 0), Ok(()));
    assert_eq!(verify_connection_id(id, &secret, &addr, 119), Ok(()));
    assert_eq!(verify_connection_id(ConnectionId(0), &secret, &addr, 5), Err(()));
}

#[test]
fn issue_is_deterministic() {
    let secret = ByteArray32::new([3u8; 32]);
    let addr = RemoteAddress::new(IpAddress::V6([0xfe; 16]), 443);
    assert_eq!(
        get_connection_id(&secret, &addr, 123456),
        get_connection_id(&secret, &addr, 123456)
    );
    assert_eq!(addr.ip(), IpAddress::V6([0xfe; 16]));
    assert_eq!(addr.port(), 443);
}

#[test]
fn config_sections_hold_their_values() {
    let udp = UdpTrackerConfig { enabled: false, bind_address: String::from("0.0.0.0:6969") };
    let http = HttpTrackerConfig {
        enabled: false,
        bind_address: String::from("0.0.0.0:6969"),
        ssl_enabled: false,
        ssl_cert_path: None,
        ssl_key_path: None,
    };
    let mut tokens = HashMap::new();
    tokens.insert(String::from("admin"), String::from("MyAccessToken"));
    let api = HttpApiConfig {
        enabled: true,
        bind_address: String::from("127.0.0.1:1212"),
        access_tokens: tokens,
    };
    assert_eq!(udp.clone(), udp);
    assert_eq!(http.clone(), http);
    assert_eq!(api.access_tokens.get("admin").map(|s| s.as_str()), Some("MyAccessToken"));
}
