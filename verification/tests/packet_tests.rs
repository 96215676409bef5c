use velodyne::packet::{get_status, parse_packet, read_i16_le, read_u16_le, read_u32_le};

fn empty_hdl32_packet(azimuth: u16) -> Vec<u8> {
    let mut d = vec![0u8; 1206];
    for b in 0..12 {
        let base = 100 * b;
        d[base] = 0xff;
        d[base + 1] = 0xee;
        d[base + 2] = (azimuth & 0xff) as u8;
        d[base + 3] = (azimuth >> 8) as u8;
    }
    d
}

fn set_point(d: &mut Vec<u8>, block: usize, laser: usize, distance: u16, intensity: u8) {
    let off = 100 * block + 4 + 3 * laser;
    d[off] = (distance & 0xff) as u8;
    d[off + 1] = (distance >> 8) as u8;
    d[off + 2] = intensity;
}

#[test]
fn parse_yields_twelve_blocks() {
    let d = empty_hdl32_packet(1500);
    let (meta, blocks) = parse_packet(&d);
    assert_eq!(blocks.len(), 12);
    assert_eq!(meta.azimuth, 1500);
    for b in &blocks {
        assert_eq!(b.header, (0xff, 0xee));
        assert_eq!(b.azimuth, 1500);
        assert_eq!(b.points.len(), 0);
    }
}

#[test]
fn parse_extracts_points_in_slot_order() {
    let mut d = empty_hdl32_packet(0);
    set_point(&mut d, 0, 3, 700, 42);
    set_point(&mut d, 0, 1, 500, 7);
    set_point(&mut d, 11, 31, 65535, 255);
    let (_, blocks) = parse_packet(&d);
    assert_eq!(blocks[0].points.len(), 2);
    assert_eq!(blocks[0].points[0].laser, 1);
    assert_eq!(blocks[0].points[0].distance, 500);
    assert_eq!(blocks[0].points[0].intensity, 7);
    assert_eq!(blocks[0].points[1].laser, 3);
    assert_eq!(blocks[0].points[1].distance, 700);
    assert_eq!(blocks[11].points.len(), 1);
    assert_eq!(blocks[11].points[0].laser, 31);
    assert_eq!(blocks[11].points[0].distance, 65535);
    assert_eq!(blocks[11].points[0].intensity, 255);
}

#[test]
fn zero_distance_points_are_dropped() {
    let mut d = empty_hdl32_packet(0);
    // a zero-distance record with non-zero intensity still means "no return"
    set_point(&mut d, 2, 5, 0, 200);
    set_point(&mut d, 2, 6, 1, 0);
    let (_, blocks) = parse_packet(&d);
    assert_eq!(blocks[2].points.len(), 1);
    assert_eq!(blocks[2].points[0].laser, 6);
}

#[test]
fn a_full_block_yields_thirty_two_points() {
    let mut d = empty_hdl32_packet(0);
    for l in 0..32 {
        set_point(&mut d, 4, l, 100 + l as u16, l as u8);
    }
    let (_, blocks) = parse_packet(&d);
    assert_eq!(blocks[4].points.len(), 32);
}

#[test]
fn meta_carries_timestamp_and_status() {
    let mut d = empty_hdl32_packet(0);
    d[1200] = 0x15;
    d[1201] = 0xcd;
    d[1202] = 0x5b;
    d[1203] = 0x07;  // 123456789 microseconds
    d[1204] = b'H';
    d[1205] = 17;
    let (meta, _) = parse_packet(&d);
    assert_eq!(meta.timestamp, 123456789);
    assert_eq!(meta.status.id, b'H');
    assert_eq!(meta.status.value, 17);
    let sb = get_status(&d);
    assert_eq!(sb.id, b'H');
    assert_eq!(sb.value, 17);
}

#[test]
fn little_endian_readers_decode_exactly() {
    let d = vec![0x34u8, 0x12, 0xff, 0xff, 0x78, 0x56, 0x34, 0x12];
    assert_eq!(read_u16_le(&d, 0), 0x1234);
    assert_eq!(read_u16_le(&d, 2), 0xffff);
    assert_eq!(read_i16_le(&d, 2), -1);
    assert_eq!(read_i16_le(&d, 0), 0x1234);
    assert_eq!(read_u32_le(&d, 4), 0x12345678);
    // -32768, the most negative word
    let e = vec![0x00u8, 0x80];
    assert_eq!(read_i16_le(&e, 0), -32768);
}
