use velodyne::pcap::{PcapCursor, RecordStep};
use velodyne::SourceError;

fn le32(v: u32) -> [u8; 4] {
    [(v & 0xff) as u8, ((v >> 8) & 0xff) as u8, ((v >> 16) & 0xff) as u8, (v >> 24) as u8]
}

fn header(magic: u32) -> Vec<u8> {
    let mut d = Vec::new();
    d.extend_from_slice(&le32(magic));
    d.extend_from_slice(&[2, 0, 4, 0]);  // version 2.4
    d.extend_from_slice(&le32(0));  // thiszone
    d.extend_from_slice(&le32(0));  // sigfigs
    d.extend_from_slice(&le32(1248));  // snaplen
    d.extend_from_slice(&le32(1));  // Ethernet
    d
}

fn record(ts_sec: u32, incl: u32, orig: u32, body: &[u8]) -> Vec<u8> {
    let mut d = Vec::new();
    d.extend_from_slice(&le32(ts_sec));
    d.extend_from_slice(&le32(500));
    d.extend_from_slice(&le32(incl));
    d.extend_from_slice(&le32(orig));
    d.extend_from_slice(body);
    d
}

/// A full 1248-byte datagram record body whose 16 pre-payload bytes name
/// the sender, and whose payload starts with `mark`.
fn datagram_body(mark: u8) -> Vec<u8> {
    let mut body = vec![0u8; 1248];
    // Ethernet (14) + the start of IPv4: skipped by the reader
    body[26] = 172;  // source address, 16 bytes before the payload
    body[27] = 16;
    body[28] = 0;
    body[29] = 5;
    body[34] = 0x09;  // UDP source port 2368, big-endian
    body[35] = 0x40;
    body[42] = mark;  // first payload byte
    body
}

#[test]
fn first_short_record_is_skipped() {
    let mut d = header(0xa1b2c3d4);
    d.extend(record(7, 60, 60, &vec![0u8; 60]));  // too short for a datagram
    d.extend(record(8, 1248, 1248, &datagram_body(0xab)));
    let mut cur = PcapCursor::new(&d).unwrap();
    match cur.next(&d) {
        RecordStep::Packet { peer, payload, ts_sec, .. } => {
            assert_eq!(ts_sec, 8);
            assert_eq!((peer.ip0, peer.ip1, peer.ip2, peer.ip3), (172, 16, 0, 5));
            assert_eq!(peer.port, 2368);
            assert_eq!(d[payload], 0xab);
            assert_eq!(&d[payload..payload + 1206], &datagram_body(0xab)[42..1248]);
        },
        other => panic!("expected a packet, got {:?}", other),
    }
    assert!(matches!(cur.next(&d), RecordStep::End));
}

#[test]
fn records_walk_in_order() {
    let mut d = header(0xa1b23c4d);
    d.extend(record(1, 1248, 1248, &datagram_body(1)));
    d.extend(record(2, 1248, 1248, &datagram_body(2)));
    let mut cur = PcapCursor::new(&d).unwrap();
    assert!(cur.is_nanoseconds());
    for expected in 1u8..=2 {
        match cur.next(&d) {
            RecordStep::Packet { payload, ts_sec, .. } => {
                assert_eq!(ts_sec, expected as u32);
                assert_eq!(d[payload], expected);
            },
            other => panic!("expected a packet, got {:?}", other),
        }
    }
    assert!(matches!(cur.next(&d), RecordStep::End));
}

#[test]
fn truncated_record_reported_and_passed() {
    let mut d = header(0xa1b2c3d4);
    d.extend(record(1, 100, 1248, &vec![0u8; 100]));  // cut short
    d.extend(record(2, 1248, 1248, &datagram_body(9)));
    let mut cur = PcapCursor::new(&d).unwrap();
    assert!(matches!(cur.next(&d), RecordStep::Truncated { .. }));
    // the walk continues after the truncated record
    match cur.next(&d) {
        RecordStep::Packet { payload, .. } => assert_eq!(d[payload], 9),
        other => panic!("expected a packet, got {:?}", other),
    }
}

#[test]
fn reset_rewinds_to_first_record() {
    let mut d = header(0xa1b2c3d4);
    d.extend(record(1, 1248, 1248, &datagram_body(4)));
    let mut cur = PcapCursor::new(&d).unwrap();
    assert!(matches!(cur.next(&d), RecordStep::Packet { .. }));
    assert!(matches!(cur.next(&d), RecordStep::End));
    cur.reset();
    assert!(matches!(cur.next(&d), RecordStep::Packet { .. }));
}

#[test]
fn big_endian_capture_rejected() {
    let d = header(0xd4c3b2a1);
    assert_eq!(PcapCursor::new(&d).unwrap_err(), SourceError::UnsupportedBigEndianPcap);
    let e = header(0x4d3cb2a1);
    assert_eq!(PcapCursor::new(&e).unwrap_err(), SourceError::UnsupportedBigEndianPcap);
}

#[test]
fn unknown_magic_rejected() {
    let d = header(0xdeadbeef);
    assert_eq!(PcapCursor::new(&d).unwrap_err(), SourceError::InvalidPcapMagic);
    assert_eq!(PcapCursor::new(&[1, 2]).unwrap_err(), SourceError::InvalidPcapMagic);
}

#[test]
fn wrong_version_or_link_type_rejected() {
    let mut d = header(0xa1b2c3d4);
    d[4] = 1;  // version 1.4
    assert_eq!(PcapCursor::new(&d).unwrap_err(), SourceError::UnsupportedPcapHeader);
    let mut e = header(0xa1b2c3d4);
    e[20] = 101;  // not Ethernet
    assert_eq!(PcapCursor::new(&e).unwrap_err(), SourceError::UnsupportedPcapHeader);
}
