use velodyne::packet::{PeerAddr, VecSource};
use velodyne::TurnIterator;

fn peer() -> PeerAddr {
    PeerAddr { ip0: 10, ip1: 0, ip2: 0, ip3: 1, port: 2368 }
}

/// A packet with one return (laser 0, half a metre) at the given azimuth.
fn one_point_packet(azimuth: u16) -> Vec<u8> {
    let mut d = vec![0u8; 1206];
    for b in 0..12 {
        let base = 100 * b;
        d[base] = 0xff;
        d[base + 1] = 0xee;
        d[base + 2] = (azimuth & 0xff) as u8;
        d[base + 3] = (azimuth >> 8) as u8;
    }
    // a single return in block 0 so each packet contributes one point
    d[4] = 250u16 as u8;
    d[5] = 0;
    d[6] = 77;
    d
}

fn rotating_source(turns: usize) -> VecSource {
    let mut packets = Vec::new();
    for _ in 0..turns {
        for k in 1..360 {
            packets.push(one_point_packet((k * 100) as u16));
        }
    }
    VecSource::new(packets, peer()).unwrap()
}

#[test]
fn turns_have_equal_length_after_steady_state() {
    // azimuths 100, 200, ..., 35900, 100, ... with the split at zero
    let mut it = TurnIterator::hdl32_init(rotating_source(5));
    let mut lengths = Vec::new();
    while let Some(res) = it.next_turn() {
        let (status, points) = res.unwrap();
        assert!(status.is_none());
        lengths.push(points.len());
    }
    assert!(lengths.len() >= 4);
    // every full rotation after the first yields the same number of points
    let steady = lengths[1];
    assert!(steady > 0);
    for len in &lengths[1..lengths.len() - 1] {
        assert_eq!(*len, steady);
    }
}

#[test]
fn split_at_half_turn_cuts_at_180_degrees() {
    let packets: Vec<Vec<u8>> = [17800u16, 17900, 18100, 18200, 18300]
        .iter()
        .map(|&a| one_point_packet(a))
        .collect();
    let src = VecSource::new(packets, peer()).unwrap();
    let mut it = TurnIterator::hdl32_init(src);
    it.set_split_azimuth(18000);
    // the sweep 17900 -> 18100 passes the split line and ends the turn
    let (_, points) = it.next_turn().unwrap().unwrap();
    assert_eq!(points.len(), 3);
}

#[test]
fn split_azimuth_is_normalised() {
    let packets: Vec<Vec<u8>> = [100u16, 35900, 200, 300]
        .iter()
        .map(|&a| one_point_packet(a))
        .collect();
    let src = VecSource::new(packets, peer()).unwrap();
    let mut it = TurnIterator::hdl32_init(src);
    // one full circle more than zero: the same split line
    it.set_split_azimuth(36000);
    it.set_split_azimuth(36000);
    // crossing zero happens on the wrap 35900 -> 200
    let (_, points) = it.next_turn().unwrap().unwrap();
    assert_eq!(points.len(), 3);
}

#[test]
fn exhausted_source_yields_none() {
    let src = VecSource::new(Vec::new(), peer()).unwrap();
    let mut it = TurnIterator::hdl32_init(src);
    assert!(it.next_turn().is_none());
}

#[test]
fn invalid_header_surfaces_as_error() {
    let mut bad = one_point_packet(100);
    bad[0] = 0x00;
    let src = VecSource::new(vec![bad], peer()).unwrap();
    let mut it = TurnIterator::hdl32_init(src);
    match it.next_turn() {
        Some(Err(_)) => {},
        other => panic!("expected a conversion error, got {:?}", other.is_some()),
    }
}
