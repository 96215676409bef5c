use velodyne::datetime::{make_dt, DateTime};
use velodyne::hdl64::status::StatusListener;
use velodyne::hdl64::{GpsStatus, PowerLevel, ReturnType};
use velodyne::packet::{PeerAddr, StatusBytes, VecSource};

fn peer() -> PeerAddr {
    PeerAddr { ip0: 192, ip1: 168, ip2: 0, ip3: 10, port: 2368 }
}

/// A packet whose only meaningful content is the status byte pair.
fn status_packet(id: u8, value: u8) -> Vec<u8> {
    let mut d = vec![0u8; 1206];
    for b in 0..12 {
        d[100 * b] = 0xff;
        d[100 * b + 1] = 0xee;
    }
    d[1204] = id;
    d[1205] = value;
    d
}

/// The 21-byte wire record of laser `l` used by the synthetic cycle.
fn laser_record(l: usize) -> [u8; 21] {
    let mut rec = [0u8; 21];
    rec[0] = l as u8;
    let put = |rec: &mut [u8; 21], at: usize, v: i16| {
        let u = v as u16;
        rec[at] = (u & 0xff) as u8;
        rec[at + 1] = (u >> 8) as u8;
    };
    put(&mut rec, 1, -100 - 3 * l as i16);  // vertical correction
    put(&mut rec, 3, 2 * l as i16 - 50);  // rotational correction
    put(&mut rec, 5, 10 + l as i16);  // distance correction
    put(&mut rec, 7, 20 + l as i16);
    put(&mut rec, 9, 30 + l as i16);
    put(&mut rec, 11, -7 * (l as i16 % 5));
    put(&mut rec, 13, 260);
    put(&mut rec, 15, 1200 + l as i16);
    put(&mut rec, 17, 9 - l as i16);
    rec[19] = l as u8;
    rec[20] = 255 - l as u8;
    rec
}

/// The 21-byte sensor-state buffer used by the synthetic cycle.
fn sensor_state() -> [u8; 21] {
    let mut ss = [0u8; 21];
    ss[0] = 0x58;
    ss[1] = 0x02;  // 600 rpm
    ss[2] = 100;
    ss[3] = 0;  // field of view start
    ss[4] = 0x3c;
    ss[5] = 0x8c;  // field of view end, 35900
    ss[6] = 0xd2;
    ss[7] = 0x04;  // 1234 hours
    ss[8] = 192;
    ss[9] = 168;
    ss[10] = 1;
    ss[11] = 201;
    ss[12] = 192;
    ss[13] = 168;
    ss[14] = 1;
    ss[15] = 1;
    ss[16] = 2;  // both returns
    ss[17] = 0;
    ss[18] = 0x58;  // manual power level 5
    ss
}

/// One 16-packet mini-cycle: the nine fixed pairs, then seven payload pairs.
fn mini_cycle(payload: [(u8, u8); 7]) -> Vec<(u8, u8)> {
    let mut pairs = vec![
        (b'H', 10),
        (b'M', 30),
        (b'S', 45),
        (b'D', 15),
        (b'N', 7),
        (b'Y', 23),
        (b'G', 0x41),
        (b'T', 35),
        (b'V', 0x47),
    ];
    pairs.extend_from_slice(&payload);
    pairs
}

fn digits_payload(vals: [u8; 7]) -> [(u8, u8); 7] {
    let ids = [b'1', b'2', b'3', b'4', b'5', b'6', b'7'];
    let mut out = [(0u8, 0u8); 7];
    for i in 0..7 {
        out[i] = (ids[i], vals[i]);
    }
    out
}

/// The full synthetic telemetry cycle: banner, 64 lasers in four parts,
/// calibration date, three sensor-state parts.
fn full_cycle_pairs() -> Vec<(u8, u8)> {
    let mut pairs: Vec<(u8, u8)> = Vec::new();
    let banner = [
        (b'1', b'U'),
        (b'2', b'N'),
        (b'3', b'I'),
        (b'4', b'T'),
        (b'5', b'#'),
        (0xf7, 17),
        (0xf6, 9),
    ];
    pairs.extend(mini_cycle(banner));
    for l in 0..64 {
        let rec = laser_record(l);
        for part in 0..3 {
            let mut vals = [0u8; 7];
            vals.copy_from_slice(&rec[7 * part..7 * part + 7]);
            pairs.extend(mini_cycle(digits_payload(vals)));
        }
        // the schedule carries no warning part after the last laser: the
        // cycle steps straight on to the calibration date
        if l < 63 {
            let warning = [
                (b'W', 0b0100_0011),
                (b'2', 0),
                (b'3', 0),
                (b'4', 0),
                (b'5', 0),
                (b'6', 0),
                (b'7', 0),
            ];
            pairs.extend(mini_cycle(warning));
        }
    }
    pairs.extend(mini_cycle(digits_payload([22, 3, 9, 8, 20, 10, 55])));
    let ss = sensor_state();
    let mut p0 = [(0u8, 0u8); 7];
    let ids0 = [0xfe, 0xff, 0xfc, 0xfd, 0xfa, 0xfb, 0x37];
    for i in 0..7 {
        p0[i] = (ids0[i], ss[i]);
    }
    pairs.extend(mini_cycle(p0));
    let mut v1 = [0u8; 7];
    v1.copy_from_slice(&ss[7..14]);
    pairs.extend(mini_cycle(digits_payload(v1)));
    let mut p2 = [(0u8, 0u8); 7];
    let ids2 = [0x31, 0x32, 0xf9, 0x34, 0xf8, 0x36, 0x37];
    for i in 0..7 {
        p2[i] = (ids2[i], ss[14 + i]);
    }
    pairs.extend(mini_cycle(p2));
    pairs
}

fn source_of(pairs: &[(u8, u8)]) -> VecSource {
    let packets: Vec<Vec<u8>> = pairs.iter().map(|&(id, v)| status_packet(id, v)).collect();
    VecSource::new(packets, peer()).unwrap()
}

fn init_listener() -> StatusListener {
    let mut src = source_of(&full_cycle_pairs());
    StatusListener::init(&mut src).expect("full synthetic cycle must initialise")
}

#[test]
fn round_trip_reconstructs_status() {
    let listener = init_listener();
    let st = listener.get_status();
    assert_eq!(
        st.dt,
        DateTime { year: 2023, month: 7, day: 15, hour: 10, minute: 30, second: 45 }
    );
    assert_eq!(st.gps, GpsStatus::SyncNmea);
    assert_eq!(st.temperature, 35);
    assert_eq!(st.version, 0x47);
    assert!(st.lens_contamination);
    assert!(st.hot);
    assert!(!st.cold);
    assert!(!st.pps);
    assert!(st.gps_time);
    assert_eq!(st.rpm, 600);
    assert_eq!(st.fov_start, 100);
    assert_eq!(st.fov_end, 35900);
    assert_eq!(st.real_life_time, 1234);
    assert_eq!((st.ip_source.o0, st.ip_source.o1, st.ip_source.o2, st.ip_source.o3), (192, 168, 1, 201));
    assert_eq!((st.ip_dest.o0, st.ip_dest.o1, st.ip_dest.o2, st.ip_dest.o3), (192, 168, 1, 1));
    assert_eq!(st.return_type, ReturnType::Both);
    assert_eq!(st.power_level, PowerLevel::Manual(5));
    assert_eq!(st.humidity, 55);
    assert_eq!(st.upper_threshold, 17);
    assert_eq!(st.lower_threshold, 9);
    assert_eq!(
        st.calib_dt,
        DateTime { year: 2022, month: 3, day: 9, hour: 8, minute: 20, second: 10 }
    );
}

#[test]
fn round_trip_reconstructs_calibration() {
    let listener = init_listener();
    let db = listener.get_calib_db();
    assert_eq!(db.lasers.len(), 64);
    for l in 0..64 {
        let c = db.lasers[l];
        assert_eq!(c.vert_corr, -100 - 3 * l as i16);
        assert_eq!(c.rot_corr, 2 * l as i16 - 50);
        assert_eq!(c.dist_correction, 10 + l as i16);
        assert_eq!(c.dist_corr_x, 20 + l as i16);
        assert_eq!(c.dist_corr_y, 30 + l as i16);
        assert_eq!(c.vert_offset, -7 * (l as i16 % 5));
        assert_eq!(c.horiz_offset, 260);
        assert_eq!(c.focal_dist, 1200 + l as i16);
        assert_eq!(c.focal_slope, 9 - l as i16);
        assert_eq!(c.min_intensity, l as u8);
        assert_eq!(c.max_intensity, 255 - l as u8);
    }
}

#[test]
fn power_level_and_return_type_valid_after_init() {
    let listener = init_listener();
    let st = listener.get_status();
    assert!(matches!(
        st.return_type,
        ReturnType::Strongest | ReturnType::Last | ReturnType::Both
    ));
    match st.power_level {
        PowerLevel::AutoNormalized | PowerLevel::AutoRaw => {},
        PowerLevel::Manual(v) => assert!(v < 8),
    }
}

#[test]
fn garbage_never_unlatches_initialisation() {
    let mut listener = init_listener();
    assert!(listener.initialised());
    for i in 0..3000u32 {
        listener.feed(StatusBytes { id: (i % 251) as u8, value: (i % 17) as u8 });
        assert!(listener.initialised());
    }
}

#[test]
fn leading_garbage_is_skipped() {
    // the noise misaligns the first mini-cycle, whose banner is lost; the
    // second transmission of the cycle initialises the listener
    let mut pairs = vec![(0xaau8, 1u8), (0x03, 7), (b'M', 2), (b'H', 4)];
    pairs.extend(full_cycle_pairs());
    pairs.extend(full_cycle_pairs());
    let mut src = source_of(&pairs);
    let listener = StatusListener::init(&mut src).expect("initialises despite leading noise");
    assert!(listener.initialised());
}

#[test]
fn truncated_cycle_does_not_initialise() {
    let pairs = full_cycle_pairs();
    let mut src = source_of(&pairs[..pairs.len() - 16]);
    assert!(StatusListener::init(&mut src).is_err());
}

#[test]
fn make_dt_validates_calendar() {
    assert_eq!(
        make_dt(23, 7, 15, 10, 30, 45),
        Some(DateTime { year: 2023, month: 7, day: 15, hour: 10, minute: 30, second: 45 })
    );
    assert_eq!(make_dt(23, 2, 29, 0, 0, 0), None);  // 2023 is no leap year
    assert!(make_dt(24, 2, 29, 0, 0, 0).is_some());  // 2024 is
    assert_eq!(make_dt(0, 0, 1, 0, 0, 0), None);
    assert_eq!(make_dt(0, 13, 1, 0, 0, 0), None);
    assert_eq!(make_dt(0, 4, 31, 0, 0, 0), None);
    assert_eq!(make_dt(0, 1, 1, 24, 0, 0), None);
    assert_eq!(make_dt(0, 1, 1, 0, 60, 0), None);
    assert_eq!(make_dt(0, 1, 1, 0, 0, 60), None);
    assert!(make_dt(0, 12, 31, 23, 59, 59).is_some());
}

#[test]
fn hdl64_point_source_end_to_end() {
    let mut packets: Vec<Vec<u8>> = full_cycle_pairs()
        .iter()
        .map(|&(id, v)| status_packet(id, v))
        .collect();
    // one data packet after the telemetry cycle: upper bank, one return
    let mut data = status_packet(0, 0);
    data[2] = 0xf4;
    data[3] = 0x01;  // packet azimuth 500
    for b in 0..12 {
        data[100 * b + 2] = 0xf4;
        data[100 * b + 3] = 0x01;
    }
    let off = 4 + 3 * 3;  // laser 3 of block 0
    data[off] = 0xb0;
    data[off + 1] = 0x04;  // distance 1200
    data[off + 2] = 80;
    packets.push(data);

    let src = VecSource::new(packets, peer()).unwrap();
    let mut ps = velodyne::PointSource::hdl64_init(src).unwrap();

    let st = *ps.get_status().unwrap();
    assert_eq!(st.rpm, 600);
    let db = ps.get_calib_db().unwrap();
    assert_eq!(db.lasers.len(), 64);
    assert_eq!(db.lasers[0].dist_correction, 10);

    let (addr, meta, points) = ps.process_points().unwrap().unwrap();
    assert_eq!(addr, peer());
    assert_eq!(meta.azimuth, 500);
    assert_eq!(points.len(), 1);
    assert_eq!(points[0].laser_id, 3);
    assert_eq!(points[0].distance, 1200);
    assert_eq!(points[0].intensity, 80);

    assert!(ps.process_points().unwrap().is_none());
}
