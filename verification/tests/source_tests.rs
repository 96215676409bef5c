use velodyne::packet::{PeerAddr, VecSource};
use velodyne::PointSource;

fn peer() -> PeerAddr {
    PeerAddr { ip0: 192, ip1: 168, ip2: 3, ip3: 43, port: 2368 }
}

fn hdl32_packet(azimuth: u16, lasers: &[(usize, u16, u8)]) -> Vec<u8> {
    let mut d = vec![0u8; 1206];
    for b in 0..12 {
        let base = 100 * b;
        d[base] = 0xff;
        d[base + 1] = 0xee;
        d[base + 2] = (azimuth & 0xff) as u8;
        d[base + 3] = (azimuth >> 8) as u8;
    }
    for &(laser, distance, intensity) in lasers {
        let off = 4 + 3 * laser;
        d[off] = (distance & 0xff) as u8;
        d[off + 1] = (distance >> 8) as u8;
        d[off + 2] = intensity;
    }
    d
}

#[test]
fn hdl32_source_processes_packets_in_order() {
    let packets = vec![
        hdl32_packet(100, &[(0, 500, 9), (5, 700, 8)]),
        hdl32_packet(200, &[(31, 900, 7)]),
    ];
    let src = VecSource::new(packets, peer()).unwrap();
    let mut ps = PointSource::hdl32_init(src);
    assert!(ps.get_status().is_none());
    assert!(ps.get_calib_db().is_none());

    let (addr, meta, points) = ps.process_points().unwrap().unwrap();
    assert_eq!(addr, peer());
    assert_eq!(meta.azimuth, 100);
    assert_eq!(points.len(), 2);
    assert_eq!(points[0].laser_id, 0);
    assert_eq!(points[1].laser_id, 5);
    assert_eq!(points[1].distance, 700);

    let (_, meta2, points2) = ps.process_points().unwrap().unwrap();
    assert_eq!(meta2.azimuth, 200);
    assert_eq!(points2.len(), 1);
    assert_eq!(points2[0].laser_id, 31);

    assert!(ps.process_points().unwrap().is_none());
}

#[test]
fn hdl64_init_fails_without_telemetry() {
    // plenty of packets, but no coherent status cycle ever arrives
    let packets: Vec<Vec<u8>> = (0..500).map(|i| hdl32_packet(i, &[])).collect();
    let src = VecSource::new(packets, peer()).unwrap();
    assert!(PointSource::hdl64_init(src).is_err());
}
