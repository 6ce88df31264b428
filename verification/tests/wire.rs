use kcp_listener::wire::{assign_conv, parse_conv, CONV_LEN, CONV_UNASSIGNED, HEADER_LEN};

fn header(first: [u8; 4], len: usize) -> Vec<u8> {
    let mut bytes = vec![0xAAu8; len];
    bytes[..4].copy_from_slice(&first);
    bytes
}

#[test]
fn header_constants_match_kcp() {
    assert_eq!(HEADER_LEN, 24);
    assert_eq!(HEADER_LEN, kcp::KCP_OVERHEAD);
    assert_eq!(CONV_LEN, 4);
    assert_eq!(CONV_UNASSIGNED, 0);
}

#[test]
fn parse_conv_reads_little_endian() {
    let bytes = header([0x78, 0x56, 0x34, 0x12], 24);
    assert_eq!(parse_conv(&bytes), Some(0x1234_5678));
    assert_eq!(parse_conv(&header([7, 0, 0, 0], 24)), Some(7));
    assert_eq!(parse_conv(&header([0, 1, 0, 0], 30)), Some(256));
    assert_eq!(parse_conv(&header([0, 0, 1, 0], 30)), Some(65_536));
    assert_eq!(parse_conv(&header([0, 0, 0, 1], 30)), Some(16_777_216));
    assert_eq!(parse_conv(&header([0xFF, 0xFF, 0xFF, 0xFF], 24)), Some(u32::MAX));
    assert_eq!(parse_conv(&header([0, 0, 0, 0], 24)), Some(0));
}

#[test]
fn parse_conv_agrees_with_kcp() {
    let bytes = header([0xEF, 0xBE, 0xAD, 0xDE], 40);
    assert_eq!(parse_conv(&bytes), Some(kcp::get_conv(&bytes)));
    assert_eq!(parse_conv(&bytes), Some(0xDEAD_BEEF));
}

#[test]
fn parse_conv_refuses_short_packets() {
    assert_eq!(parse_conv(&[]), None);
    assert_eq!(parse_conv(&[1, 0, 0, 0]), None);
    assert_eq!(parse_conv(&header([1, 0, 0, 0], 23)), None);
    assert_eq!(parse_conv(&header([1, 0, 0, 0], 24)), Some(1));
}

#[test]
fn assign_conv_writes_little_endian_in_place() {
    let mut bytes = header([0, 0, 0, 0], 26);
    assert!(assign_conv(&mut bytes, 0x0102_0304));
    assert_eq!(&bytes[..4], &[0x04, 0x03, 0x02, 0x01]);
    assert_eq!(bytes.len(), 26);
    assert!(bytes[4..].iter().all(|b| *b == 0xAA));
    assert_eq!(parse_conv(&bytes), Some(0x0102_0304));
}

#[test]
fn assign_conv_changes_the_packet() {
    let before = header([0, 0, 0, 0], 24);
    let mut after = before.clone();
    assert!(assign_conv(&mut after, 9));
    assert_ne!(before, after);
    assert_eq!(kcp::get_conv(&after), 9);
}

#[test]
fn assign_conv_leaves_short_packets_alone() {
    let mut bytes = vec![5u8; 23];
    assert!(!assign_conv(&mut bytes, 77));
    assert_eq!(bytes, vec![5u8; 23]);
    let mut empty: Vec<u8> = Vec::new();
    assert!(!assign_conv(&mut empty, 77));
    assert!(empty.is_empty());
}

#[test]
fn assign_then_parse_round_trips() {
    for conv in [1u32, 255, 256, 65_535, 65_536, 0x00FF_FFFF, 0x0100_0000, u32::MAX] {
        let mut bytes = header([9, 9, 9, 9], 24);
        assert!(assign_conv(&mut bytes, conv));
        assert_eq!(parse_conv(&bytes), Some(conv));
    }
}
