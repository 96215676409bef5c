use velodyne::hdl32::Hdl32Convertor;
use velodyne::hdl64::{CalibDb, Hdl64Convertor};

fn empty_packet(header: (u8, u8), azimuth: u16) -> Vec<u8> {
    let mut d = vec![0u8; 1206];
    for b in 0..12 {
        let base = 100 * b;
        d[base] = header.0;
        d[base + 1] = header.1;
        d[base + 2] = (azimuth & 0xff) as u8;
        d[base + 3] = (azimuth >> 8) as u8;
    }
    d
}

fn set_point(d: &mut Vec<u8>, block: usize, laser: usize, distance: u16, intensity: u8) {
    let off = 100 * block + 4 + 3 * laser;
    d[off] = (distance & 0xff) as u8;
    d[off + 1] = (distance >> 8) as u8;
    d[off + 2] = intensity;
}

/// The fixed vertical angle of laser 0 of the 32-laser unit, in degrees.
const HDL32_LASER0_DEG: f64 = -30.67;

#[test]
fn hdl32_single_point_scenario() {
    // one return on laser 0 at azimuth 0, one metre (500 counts at 2 mm)
    let mut d = empty_packet((0xff, 0xee), 0);
    set_point(&mut d, 0, 0, 500, 200);
    let (meta, points) = Hdl32Convertor.convert(&d).unwrap();
    assert_eq!(meta.azimuth, 0);
    assert_eq!(points.len(), 1);
    let p = points[0];
    assert_eq!(p.laser_id, 0);
    assert_eq!(p.distance, 500);
    assert_eq!(p.intensity, 200);
    assert_eq!(p.azimuth, 0);

    // the Cartesian projection of that measurement
    let dist = p.distance as f64 / 500.0;
    let w = HDL32_LASER0_DEG.to_radians();
    let a = (p.azimuth as f64 / 100.0).to_radians();
    let x = dist * w.cos() * a.sin();
    let y = dist * w.cos() * a.cos();
    let z = dist * w.sin();
    assert!(x.abs() < 1e-4);
    assert!((y - 0.8600).abs() < 1e-3);
    assert!((z - (-0.5103)).abs() < 1e-3);
}

#[test]
fn hdl32_double_return_suppressed() {
    // two adjacent blocks at the same azimuth with identical measurements:
    // one copy of each laser's point survives
    let mut d = empty_packet((0xff, 0xee), 0x1000);
    for l in 0..32 {
        set_point(&mut d, 0, l, 1000 + l as u16, 50 + l as u8);
        set_point(&mut d, 1, l, 1000 + l as u16, 50 + l as u8);
    }
    let (_, points) = Hdl32Convertor.convert(&d).unwrap();
    assert_eq!(points.len(), 32);
    for (l, p) in points.iter().enumerate() {
        assert_eq!(p.laser_id, l as u8);
        assert_eq!(p.distance, 1000 + l as u16);
        assert_eq!(p.intensity, 50 + l as u8);
    }
}

#[test]
fn hdl32_distinct_azimuths_keep_both_copies() {
    let mut d = empty_packet((0xff, 0xee), 0x1000);
    // block 1 at a different azimuth: the repeated distances are kept
    d[102] = 0x10;
    d[103] = 0x11;
    set_point(&mut d, 0, 4, 800, 10);
    set_point(&mut d, 1, 4, 800, 10);
    let (_, points) = Hdl32Convertor.convert(&d).unwrap();
    assert_eq!(points.len(), 2);
}

#[test]
fn hdl64_lower_bank_laser_offset() {
    // a lower-bank block: laser 0 of the block is global laser 32
    let mut d = empty_packet((0xff, 0xee), 0);
    let base = 100;
    d[base] = 0xff;
    d[base + 1] = 0xdd;
    set_point(&mut d, 1, 0, 1000, 99);
    let convertor = Hdl64Convertor::new(CalibDb::new());
    let (_, points) = convertor.convert(&d).unwrap();
    assert_eq!(points.len(), 1);
    assert_eq!(points[0].laser_id, 32);
    assert_eq!(points[0].distance, 1000);
}

#[test]
fn hdl64_invalid_header_rejected() {
    let mut d = empty_packet((0xff, 0xee), 0);
    set_point(&mut d, 0, 0, 500, 200);
    // poison one block header
    d[300] = 0xab;
    d[301] = 0xcd;
    let convertor = Hdl64Convertor::new(CalibDb::new());
    assert!(convertor.convert(&d).is_err());
}

#[test]
fn hdl32_rejects_lower_bank_header() {
    // the 32-laser unit knows only the upper bank header
    let d = empty_packet((0xff, 0xdd), 0);
    assert!(Hdl32Convertor.convert(&d).is_err());
}

#[test]
fn laser_ids_lie_in_model_range() {
    let mut d = empty_packet((0xff, 0xee), 42);
    for b in (1..12).step_by(2) {
        d[100 * b] = 0xff;
        d[100 * b + 1] = 0xdd;
    }
    for b in 0..12 {
        for l in 0..32 {
            set_point(&mut d, b, l, 77 + (b * 32 + l) as u16, 1);
        }
    }
    let convertor = Hdl64Convertor::new(CalibDb::new());
    let (_, points) = convertor.convert(&d).unwrap();
    assert!(!points.is_empty());
    assert!(points.iter().all(|p| p.laser_id < 64));
    let mut d32 = empty_packet((0xff, 0xee), 42);
    for b in 0..12 {
        for l in 0..32 {
            set_point(&mut d32, b, l, 77 + (b * 32 + l) as u16, 1);
        }
    }
    let (_, p32) = Hdl32Convertor.convert(&d32).unwrap();
    assert!(p32.iter().all(|p| p.laser_id < 32));
}
