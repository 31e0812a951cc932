use tinyfw::packet::{classify, is_blocked_port, read_at, Disposition};

/// Builds a well-formed Ethernet+IPv4+TCP frame with the given destination
/// port: 14 bytes of Ethernet header, 20 of IPv4, 20 of TCP.
fn tcp_frame(dest_port: u16) -> Vec<u8> {
    let mut frame = vec![0u8; 54];
    frame[12] = 0x08;
    frame[13] = 0x00;
    frame[14 + 9] = 6;
    frame[14 + 20 + 2] = (dest_port >> 8) as u8;
    frame[14 + 20 + 3] = (dest_port & 0xff) as u8;
    frame
}

#[test]
fn tcp_port_80_is_dropped() {
    assert_eq!(classify(&tcp_frame(80)), Disposition::Drop);
}

#[test]
fn tcp_port_443_passes() {
    assert_eq!(classify(&tcp_frame(443)), Disposition::Pass);
}

#[test]
fn truncated_10_byte_frame_is_rejected() {
    let frame = vec![0u8; 10];
    assert_eq!(classify(&frame), Disposition::RejectMalformed);
}

#[test]
fn arp_frame_passes_at_any_length() {
    for len in [14usize, 28, 60] {
        let mut frame = vec![0u8; len];
        frame[12] = 0x08;
        frame[13] = 0x06;
        assert_eq!(classify(&frame), Disposition::Pass);
    }
}

#[test]
fn empty_frame_is_rejected() {
    assert_eq!(classify(&Vec::new()), Disposition::RejectMalformed);
}

#[test]
fn frame_shorter_than_ethernet_header_is_rejected() {
    assert_eq!(classify(&vec![0u8; 13]), Disposition::RejectMalformed);
}

#[test]
fn ipv4_frame_truncated_before_protocol_field_is_rejected() {
    let mut frame = vec![0u8; 20];
    frame[12] = 0x08;
    frame[13] = 0x00;
    assert_eq!(classify(&frame), Disposition::RejectMalformed);
}

#[test]
fn tcp_frame_truncated_before_dest_port_is_rejected() {
    let mut frame = tcp_frame(80);
    frame.truncate(37);
    assert_eq!(classify(&frame), Disposition::RejectMalformed);
}

#[test]
fn tcp_frame_just_long_enough_for_dest_port_is_classified() {
    let mut frame = tcp_frame(80);
    frame.truncate(38);
    assert_eq!(classify(&frame), Disposition::Drop);
}

#[test]
fn non_ipv4_frame_passes_regardless_of_payload() {
    let mut frame = vec![0xffu8; 54];
    frame[12] = 0x86;
    frame[13] = 0xdd;
    frame[14 + 9] = 6;
    frame[14 + 20 + 3] = 80;
    assert_eq!(classify(&frame), Disposition::Pass);
}

#[test]
fn ipv4_udp_frame_passes() {
    let mut frame = tcp_frame(80);
    frame[14 + 9] = 17;
    assert_eq!(classify(&frame), Disposition::Pass);
}

#[test]
fn every_blocklisted_port_is_dropped() {
    for port in [20u16, 21, 23, 25, 70, 80, 110, 139, 143, 161, 162, 445, 1521] {
        assert_eq!(classify(&tcp_frame(port)), Disposition::Drop);
        assert!(is_blocked_port(port));
    }
}

#[test]
fn unlisted_ports_pass() {
    for port in [22u16, 443, 8080, 0, 65535] {
        assert_eq!(classify(&tcp_frame(port)), Disposition::Pass);
        assert!(!is_blocked_port(port));
    }
}

#[test]
fn read_at_returns_big_endian_values() {
    let frame = vec![0x12u8, 0x34, 0x56];
    assert_eq!(read_at(&frame, 0, 2), Ok(0x1234));
    assert_eq!(read_at(&frame, 1, 2), Ok(0x3456));
    assert_eq!(read_at(&frame, 2, 1), Ok(0x56));
}

#[test]
fn read_at_rejects_out_of_bounds_reads() {
    let frame = vec![0u8; 4];
    assert!(read_at(&frame, 3, 2).is_err());
    assert!(read_at(&frame, 4, 1).is_err());
    assert!(read_at(&frame, usize::MAX, 2).is_err());
    assert!(read_at(&Vec::new(), 0, 1).is_err());
    assert!(read_at(&frame, 2, 2).is_ok());
}
