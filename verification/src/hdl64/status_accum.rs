//! Reconstruction of the 64-laser sensor's telemetry.
//!
//! The sensor transmits its status and its intrinsic calibration table one
//! byte pair per datagram — an id and a value — cycling through a fixed
//! schedule of 4160 pairs.  The pairs are grouped in 16-position mini-cycles:
//! positions 0..8 carry the clock, GPS state, temperature and firmware
//! version under fixed ids, and positions 9..15 carry seven payload pairs
//! whose meaning depends on a higher-level cycle that steps through the unit
//! banner, the 64 per-laser calibration records, the calibration date and
//! the sensor state.  Out-of-schedule bytes reset the mini-cycle; malformed
//! payloads reset the higher-level cycle; neither ever undoes a completed
//! initialisation.

use vstd::prelude::*;

use crate::datetime::{make_dt, spec_valid_dt, DateTime};
use crate::hdl64::calib::{CalibDb, LaserCalib, LASER_COUNT};
use crate::hdl64::status_types::{GpsStatus, Ipv4, PowerLevel, ReturnType, Status};
use crate::packet::{le16, le16s, read_i16_le, read_u16_le, StatusBytes};

verus! {

/// Length of one per-laser calibration record on the wire.
pub const LASER_REC_LEN: usize = 21;

/// Length of the flat per-laser buffer: 64 records of 21 bytes.
pub const LASERS_LEN: usize = 1344;

/// Length of the sensor-state buffer.
pub const SENSOR_STATE_LEN: usize = 21;

/// The higher-level cycle consumed at position 15 of each mini-cycle.
#[derive(Copy, Clone, Debug, PartialEq, Eq, Structural)]
pub enum CycleState {
    /// Waiting for the unit banner; the sync state.
    FirstCycle,
    /// Collecting per-laser calibration records, four parts per laser.
    Lasers { laser: u8, part: u8 },
    /// Expecting the calibration date.
    CalibrationDt,
    /// Collecting the three parts of the sensor-state buffer.
    SensorState { part: u8 },
}

/// Ghost image of the accumulator.
pub ghost struct AccumModel {
    /// Latched once a full cycle has completed; never cleared.
    pub init: bool,
    /// Clock bytes: year, month, day, hour, minute, second.
    pub dt: Seq<u8>,
    pub gps_val: u8,
    pub temp_val: u8,
    pub version_val: u8,
    /// The seven payload ids of the current mini-cycle.
    pub cycle_ids: Seq<u8>,
    /// The seven payload values of the current mini-cycle.
    pub cycle_values: Seq<u8>,
    /// Position inside the 16-position mini-cycle.
    pub cycle_pos: int,
    pub cycle_state: CycleState,
    /// The 64 per-laser records, flattened to 21 bytes each.
    pub lasers: Seq<u8>,
    /// The 21-byte sensor-state buffer.
    pub sensor_state: Seq<u8>,
}

/// What one telemetry pair does to the accumulator, the status and the
/// calibration table.
pub ghost struct FeedResult {
    pub accum: AccumModel,
    pub status: Status,
    pub db: Seq<LaserCalib>,
}

/// Well-formedness of the accumulator state.
pub open spec fn spec_accum_wf(a: AccumModel) -> bool {
    &&& a.dt.len() == 6
    &&& a.cycle_ids.len() == 7
    &&& a.cycle_values.len() == 7
    &&& 0 <= a.cycle_pos < 16
    &&& a.lasers.len() == LASERS_LEN
    &&& a.sensor_state.len() == SENSOR_STATE_LEN
    &&& (a.cycle_state matches CycleState::Lasers { laser, part } ==> laser < 64 && part < 4 && (
    part == 3 ==> laser < 63))
    &&& (a.cycle_state matches CycleState::SensorState { part } ==> part < 3)
}

/// Which mini-cycle position a telemetry id belongs to.  The nine fixed ids
/// claim positions 0..8; everything else is payload, at positions 9..15.
pub open spec fn spec_schedule_ok(id: u8, pos: int) -> bool {
    if id == 72 {  // 'H'
        pos == 0
    } else if id == 77 {  // 'M'
        pos == 1
    } else if id == 83 {  // 'S'
        pos == 2
    } else if id == 68 {  // 'D'
        pos == 3
    } else if id == 78 {  // 'N'
        pos == 4
    } else if id == 89 {  // 'Y'
        pos == 5
    } else if id == 71 {  // 'G'
        pos == 6
    } else if id == 84 {  // 'T'
        pos == 7
    } else if id == 86 {  // 'V'
        pos == 8
    } else {
        8 < pos < 16
    }
}

/// The store a fixed id performs before its position is even checked.
pub open spec fn spec_store_id(a: AccumModel, id: u8, value: u8) -> AccumModel {
    if id == 72 {
        AccumModel { dt: a.dt.update(3, value), ..a }
    } else if id == 77 {
        AccumModel { dt: a.dt.update(4, value), ..a }
    } else if id == 83 {
        AccumModel { dt: a.dt.update(5, value), ..a }
    } else if id == 68 {
        AccumModel { dt: a.dt.update(2, value), ..a }
    } else if id == 78 {
        AccumModel { dt: a.dt.update(1, value), ..a }
    } else if id == 89 {
        AccumModel { dt: a.dt.update(0, value), ..a }
    } else if id == 71 {
        AccumModel { gps_val: value, ..a }
    } else if id == 84 {
        AccumModel { temp_val: value, ..a }
    } else if id == 86 {
        AccumModel { version_val: value, ..a }
    } else {
        a
    }
}

/// The GPS connection state a status byte encodes, if any.
pub open spec fn spec_gps_of(v: u8) -> Option<GpsStatus> {
    if v == 0x41 {
        Some(GpsStatus::SyncNmea)
    } else if v == 0x56 {
        Some(GpsStatus::NmeaOnly)
    } else if v == 0x50 {
        Some(GpsStatus::SyncOnly)
    } else if v == 0x00 {
        Some(GpsStatus::NotConnected)
    } else {
        None
    }
}

/// The sensor clock encoded by the accumulator's date bytes.
pub open spec fn spec_dt_of(dt: Seq<u8>) -> DateTime {
    DateTime {
        year: (dt[0] + 2000) as u16,
        month: dt[1],
        day: dt[2],
        hour: dt[3],
        minute: dt[4],
        second: dt[5],
    }
}

/// The status commit performed at position 8: clock, GPS state, temperature
/// and firmware version, provided the clock names a real date and the GPS
/// byte is a known code.
pub open spec fn spec_update_status(a: AccumModel, st: Status) -> Option<Status> {
    let dt = spec_dt_of(a.dt);
    if spec_valid_dt(dt) && spec_gps_of(a.gps_val) is Some {
        Some(
            Status {
                dt,
                gps: spec_gps_of(a.gps_val)->Some_0,
                temperature: a.temp_val,
                version: a.version_val,
                ..st
            },
        )
    } else {
        None
    }
}

/// The health flags carried by the warning byte.
pub open spec fn spec_process_warning(st: Status, b: u8) -> Status {
    Status {
        lens_contamination: b & 0x01 != 0,
        hot: b & 0x02 != 0,
        cold: b & 0x04 != 0,
        pps: b & 0x20 != 0,
        gps_time: b & 0x40 != 0,
        ..st
    }
}

/// The multiple-return mode encoded by sensor-state byte 16, if valid.
pub open spec fn spec_return_type_of(v: u8) -> Option<ReturnType> {
    if v == 0 {
        Some(ReturnType::Strongest)
    } else if v == 1 {
        Some(ReturnType::Last)
    } else if v == 2 {
        Some(ReturnType::Both)
    } else {
        None
    }
}

/// The power level encoded by sensor-state byte 18, if valid: `0xA8` and
/// `0xA0` are the two automatic modes; otherwise the low nibble must be 8
/// and the high nibble, below 8, is the manual level.
pub open spec fn spec_power_level_of(v: u8) -> Option<PowerLevel> {
    if v == 0xa8 {
        Some(PowerLevel::AutoNormalized)
    } else if v == 0xa0 {
        Some(PowerLevel::AutoRaw)
    } else if v & 0x0f == 8 && ((v & 0xf0) >> 4) < 8 {
        Some(PowerLevel::Manual((v & 0xf0) >> 4))
    } else {
        None
    }
}

/// The status fields decoded from a complete sensor-state buffer, or nothing
/// when the return mode or the power level is invalid.
pub open spec fn spec_full_cycle_status(d: Seq<u8>, st: Status) -> Option<Status> {
    if spec_return_type_of(d[16]) is Some && spec_power_level_of(d[18]) is Some {
        Some(
            Status {
                rpm: le16(d, 0),
                fov_start: le16(d, 2),
                fov_end: le16(d, 4),
                real_life_time: le16(d, 6),
                ip_source: Ipv4 { o0: d[8], o1: d[9], o2: d[10], o3: d[11] },
                ip_dest: Ipv4 { o0: d[12], o1: d[13], o2: d[14], o3: d[15] },
                return_type: spec_return_type_of(d[16])->Some_0,
                power_level: spec_power_level_of(d[18])->Some_0,
                ..st
            },
        )
    } else {
        None
    }
}

/// The calibration record encoded by the 21 bytes of laser `i` in the flat
/// buffer: little-endian signed words, then the two intensity bounds.
pub open spec fn spec_decode_laser(lasers: Seq<u8>, i: int) -> LaserCalib {
    let base = 21 * i;
    LaserCalib {
        min_intensity: lasers[base + 19],
        max_intensity: lasers[base + 20],
        vert_corr: le16s(lasers, base + 1) as i16,
        rot_corr: le16s(lasers, base + 3) as i16,
        dist_correction: le16s(lasers, base + 5) as i16,
        dist_corr_x: le16s(lasers, base + 7) as i16,
        dist_corr_y: le16s(lasers, base + 9) as i16,
        vert_offset: le16s(lasers, base + 11) as i16,
        horiz_offset: le16s(lasers, base + 13) as i16,
        focal_dist: le16s(lasers, base + 15) as i16,
        focal_slope: le16s(lasers, base + 17) as i16,
    }
}

/// The whole calibration table encoded by the flat per-laser buffer.
pub open spec fn spec_decoded_lasers(lasers: Seq<u8>) -> Seq<LaserCalib> {
    Seq::new(LASER_COUNT as nat, |i: int| spec_decode_laser(lasers, i))
}

/// `dst` with `len` bytes of `src` written at offset `base`.
pub open spec fn spec_write_range(dst: Seq<u8>, base: int, src: Seq<u8>, len: int) -> Seq<u8> {
    Seq::new(dst.len(), |j: int| if base <= j < base + len { src[j - base] } else { dst[j] })
}

/// Whether the payload ids are the plain digit schedule `1`..`7`.
pub open spec fn spec_ids_digits(ids: Seq<u8>) -> bool {
    &&& ids[0] == 49
    &&& ids[1] == 50
    &&& ids[2] == 51
    &&& ids[3] == 52
    &&& ids[4] == 53
    &&& ids[5] == 54
    &&& ids[6] == 55
}

/// The effect of consuming one complete mini-cycle payload on the
/// higher-level cycle.  A payload that does not match the expected schedule,
/// or carries an invalid date, return mode or power level, resets the cycle
/// to [`CycleState::FirstCycle`] and leaves everything else alone.
pub open spec fn spec_consume(a: AccumModel, st: Status, db: Seq<LaserCalib>) -> FeedResult {
    let ids = a.cycle_ids;
    let vals = a.cycle_values;
    match a.cycle_state {
        CycleState::FirstCycle => {
            // the unit banner: ids "12345" F7 F6 over values "UNIT#" and the
            // two noise thresholds
            if ids[0] == 49 && ids[1] == 50 && ids[2] == 51 && ids[3] == 52 && ids[4] == 53
                && ids[5] == 0xf7 && ids[6] == 0xf6 && vals[0] == 85 && vals[1] == 78 && vals[2]
                == 73 && vals[3] == 84 && vals[4] == 35 {
                FeedResult {
                    accum: AccumModel {
                        cycle_state: CycleState::Lasers { laser: 0, part: 0 },
                        ..a
                    },
                    status: Status { upper_threshold: vals[5], lower_threshold: vals[6], ..st },
                    db,
                }
            } else {
                FeedResult { accum: a, status: st, db }
            }
        },
        CycleState::Lasers { laser, part } => {
            if part <= 2 {
                if spec_ids_digits(ids) && (part != 0 || vals[0] == laser) {
                    let lasers2 = if !a.init {
                        spec_write_range(a.lasers, 21 * laser + 7 * part, vals, 7)
                    } else {
                        a.lasers
                    };
                    let state2 = if laser == 63 && part == 2 {
                        CycleState::CalibrationDt
                    } else {
                        CycleState::Lasers { laser, part: (part + 1) as u8 }
                    };
                    FeedResult {
                        accum: AccumModel { lasers: lasers2, cycle_state: state2, ..a },
                        status: st,
                        db,
                    }
                } else {
                    FeedResult {
                        accum: AccumModel { cycle_state: CycleState::FirstCycle, ..a },
                        status: st,
                        db,
                    }
                }
            } else {
                // part 3: id 'W' then digits; value 0 carries the warning bits
                if ids[0] == 87 && ids[1] == 50 && ids[2] == 51 && ids[3] == 52 && ids[4] == 53
                    && ids[5] == 54 && ids[6] == 55 {
                    FeedResult {
                        accum: AccumModel {
                            cycle_state: CycleState::Lasers {
                                laser: (laser + 1) as u8,
                                part: 0,
                            },
                            ..a
                        },
                        status: spec_process_warning(st, vals[0]),
                        db,
                    }
                } else {
                    FeedResult {
                        accum: AccumModel { cycle_state: CycleState::FirstCycle, ..a },
                        status: st,
                        db,
                    }
                }
            }
        },
        CycleState::CalibrationDt => {
            if spec_ids_digits(ids) {
                let dt = DateTime {
                    year: (vals[0] + 2000) as u16,
                    month: vals[1],
                    day: vals[2],
                    hour: vals[3],
                    minute: vals[4],
                    second: vals[5],
                };
                if spec_valid_dt(dt) {
                    FeedResult {
                        accum: AccumModel {
                            cycle_state: CycleState::SensorState { part: 0 },
                            ..a
                        },
                        status: Status { calib_dt: dt, humidity: vals[6], ..st },
                        db,
                    }
                } else {
                    FeedResult {
                        accum: AccumModel { cycle_state: CycleState::FirstCycle, ..a },
                        status: st,
                        db,
                    }
                }
            } else {
                FeedResult {
                    accum: AccumModel { cycle_state: CycleState::FirstCycle, ..a },
                    status: st,
                    db,
                }
            }
        },
        CycleState::SensorState { part } => {
            if part == 0 {
                if ids[0] == 0xfe && ids[1] == 0xff && ids[2] == 0xfc && ids[3] == 0xfd && ids[4]
                    == 0xfa && ids[5] == 0xfb && ids[6] == 0x37 {
                    FeedResult {
                        accum: AccumModel {
                            sensor_state: spec_write_range(a.sensor_state, 0, vals, 7),
                            cycle_state: CycleState::SensorState { part: 1 },
                            ..a
                        },
                        status: st,
                        db,
                    }
                } else {
                    FeedResult {
                        accum: AccumModel { cycle_state: CycleState::FirstCycle, ..a },
                        status: st,
                        db,
                    }
                }
            } else if part == 1 {
                if spec_ids_digits(ids) {
                    FeedResult {
                        accum: AccumModel {
                            sensor_state: spec_write_range(a.sensor_state, 7, vals, 7),
                            cycle_state: CycleState::SensorState { part: 2 },
                            ..a
                        },
                        status: st,
                        db,
                    }
                } else {
                    FeedResult {
                        accum: AccumModel { cycle_state: CycleState::FirstCycle, ..a },
                        status: st,
                        db,
                    }
                }
            } else {
                if ids[0] == 0x31 && ids[1] == 0x32 && ids[2] == 0xf9 && ids[3] == 0x34 && ids[4]
                    == 0xf8 && ids[5] == 0x36 && ids[6] == 0x37 {
                    let ss2 = spec_write_range(a.sensor_state, 14, vals, 7);
                    match spec_full_cycle_status(ss2, st) {
                        Some(st2) => FeedResult {
                            accum: AccumModel {
                                sensor_state: ss2,
                                init: true,
                                cycle_state: CycleState::FirstCycle,
                                ..a
                            },
                            status: st2,
                            db: spec_decoded_lasers(a.lasers),
                        },
                        None => FeedResult {
                            accum: AccumModel {
                                sensor_state: ss2,
                                cycle_state: CycleState::FirstCycle,
                                ..a
                            },
                            status: st,
                            db,
                        },
                    }
                } else {
                    FeedResult {
                        accum: AccumModel { cycle_state: CycleState::FirstCycle, ..a },
                        status: st,
                        db,
                    }
                }
            }
        },
    }
}

/// The full effect of one telemetry byte pair: store any fixed-id value,
/// check the mini-cycle schedule (resetting the window on a mismatch),
/// commit the clock at position 8, collect payload pairs at positions 9..15
/// and consume the completed payload at position 15.
pub open spec fn spec_feed(
    a: AccumModel,
    st: Status,
    db: Seq<LaserCalib>,
    id: u8,
    value: u8,
) -> FeedResult {
    let a1 = spec_store_id(a, id, value);
    if !spec_schedule_ok(id, a.cycle_pos) {
        FeedResult { accum: AccumModel { cycle_pos: 0, ..a1 }, status: st, db }
    } else {
        let committed = if a.cycle_pos == 8 {
            match spec_update_status(a1, st) {
                Some(st2) => (a1, st2),
                None => (AccumModel { cycle_state: CycleState::FirstCycle, ..a1 }, st),
            }
        } else {
            (a1, st)
        };
        let a2 = committed.0;
        let st2 = committed.1;
        if a.cycle_pos <= 8 {
            FeedResult { accum: AccumModel { cycle_pos: a.cycle_pos + 1, ..a2 }, status: st2, db }
        } else {
            let a3 = AccumModel {
                cycle_ids: a2.cycle_ids.update(a.cycle_pos - 9, id),
                cycle_values: a2.cycle_values.update(a.cycle_pos - 9, value),
                ..a2
            };
            if a.cycle_pos == 15 {
                let consumed = spec_consume(a3, st2, db);
                FeedResult {
                    accum: AccumModel { cycle_pos: 0, ..consumed.accum },
                    status: consumed.status,
                    db: consumed.db,
                }
            } else {
                FeedResult {
                    accum: AccumModel { cycle_pos: a.cycle_pos + 1, ..a3 },
                    status: st2,
                    db,
                }
            }
        }
    }
}

/// The status every decoder starts from: epoch clock, no GPS, everything
/// zeroed, strongest-return mode, normalised automatic power.
pub open spec fn spec_default_status() -> Status {
    Status {
        dt: DateTime { year: 2000, month: 1, day: 1, hour: 0, minute: 0, second: 0 },
        gps: GpsStatus::NotConnected,
        temperature: 0,
        version: 0,
        lens_contamination: false,
        hot: false,
        cold: false,
        pps: false,
        gps_time: false,
        rpm: 0,
        fov_start: 0,
        fov_end: 0,
        real_life_time: 0,
        ip_source: Ipv4 { o0: 0, o1: 0, o2: 0, o3: 0 },
        ip_dest: Ipv4 { o0: 0, o1: 0, o2: 0, o3: 0 },
        return_type: ReturnType::Strongest,
        power_level: PowerLevel::AutoNormalized,
        humidity: 0,
        upper_threshold: 0,
        lower_threshold: 0,
        calib_dt: DateTime { year: 2000, month: 1, day: 1, hour: 0, minute: 0, second: 0 },
    }
}

/// The status every decoder starts from.
pub fn default_sensor_status() -> (r: Status)
    ensures
        r == spec_default_status(),
        r.wf(),
{
    let dt = DateTime { year: 2000, month: 1, day: 1, hour: 0, minute: 0, second: 0 };
    Status {
        dt,
        gps: GpsStatus::NotConnected,
        temperature: 0,
        version: 0,
        lens_contamination: false,
        hot: false,
        cold: false,
        pps: false,
        gps_time: false,
        rpm: 0,
        fov_start: 0,
        fov_end: 0,
        real_life_time: 0,
        ip_source: Ipv4 { o0: 0, o1: 0, o2: 0, o3: 0 },
        ip_dest: Ipv4 { o0: 0, o1: 0, o2: 0, o3: 0 },
        return_type: ReturnType::Strongest,
        power_level: PowerLevel::AutoNormalized,
        humidity: 0,
        upper_threshold: 0,
        lower_threshold: 0,
        calib_dt: dt,
    }
}

/// The accumulator: the mini-cycle window, the higher-level cycle and the
/// buffers the cycles fill.
pub struct StatusAccumulator {
    init: bool,
    dt: Vec<u8>,
    gps_val: u8,
    temp_val: u8,
    version_val: u8,
    cycle_ids: Vec<u8>,
    cycle_values: Vec<u8>,
    cycle_pos: usize,
    cycle_state: CycleState,
    lasers: Vec<u8>,
    sensor_state: Vec<u8>,
}

impl View for StatusAccumulator {
    type V = AccumModel;

    closed spec fn view(&self) -> AccumModel {
        AccumModel {
            init: self.init,
            dt: self.dt@,
            gps_val: self.gps_val,
            temp_val: self.temp_val,
            version_val: self.version_val,
            cycle_ids: self.cycle_ids@,
            cycle_values: self.cycle_values@,
            cycle_pos: self.cycle_pos as int,
            cycle_state: self.cycle_state,
            lasers: self.lasers@,
            sensor_state: self.sensor_state@,
        }
    }
}

impl StatusAccumulator {
    /// Well-formedness of the accumulator.
    pub open spec fn wf(&self) -> bool {
        spec_accum_wf(self@)
    }

    /// Whether a full cycle has completed since the accumulator was built.
    pub fn is_initialised(&self) -> (r: bool)
        ensures
            r == self@.init,
    {
        self.init
    }

    /// A fresh accumulator: nothing seen yet.
    pub fn new() -> (r: StatusAccumulator)
        ensures
            r.wf(),
            spec_accum_inv(r@),
            !r@.init,
            r@.cycle_pos == 0,
            r@.cycle_state == CycleState::FirstCycle,
    {
        let mut dt: Vec<u8> = Vec::new();
        let mut i: usize = 0;
        while i < 6
            invariant
                i <= 6,
                dt@.len() == i,
            decreases 6 - i,
        {
            dt.push(0);
            i = i + 1;
        }
        let mut cycle_ids: Vec<u8> = Vec::new();
        let mut cycle_values: Vec<u8> = Vec::new();
        let mut j: usize = 0;
        while j < 7
            invariant
                j <= 7,
                cycle_ids@.len() == j,
                cycle_values@.len() == j,
            decreases 7 - j,
        {
            cycle_ids.push(0);
            cycle_values.push(0);
            j = j + 1;
        }
        let mut lasers: Vec<u8> = Vec::new();
        let mut k: usize = 0;
        while k < LASERS_LEN
            invariant
                k <= LASERS_LEN,
                lasers@.len() == k,
            decreases LASERS_LEN - k,
        {
            lasers.push(0);
            k = k + 1;
        }
        let mut sensor_state: Vec<u8> = Vec::new();
        let mut m: usize = 0;
        while m < SENSOR_STATE_LEN
            invariant
                m <= SENSOR_STATE_LEN,
                sensor_state@.len() == m,
            decreases SENSOR_STATE_LEN - m,
        {
            sensor_state.push(0);
            m = m + 1;
        }
        StatusAccumulator {
            init: false,
            dt,
            gps_val: 0,
            temp_val: 0,
            version_val: 0,
            cycle_ids,
            cycle_values,
            cycle_pos: 0,
            cycle_state: CycleState::FirstCycle,
            lasers,
            sensor_state,
        }
    }

    /// The status commit of position 8, from the stored clock and GPS bytes.
    fn make_status(&self, st: &Status) -> (r: Option<Status>)
        requires
            self.wf(),
        ensures
            r == spec_update_status(self@, *st),
    {
        let dt_opt = make_dt(self.dt[0], self.dt[1], self.dt[2], self.dt[3], self.dt[4], self.dt[5]);
        let gps_opt: Option<GpsStatus> = if self.gps_val == 0x41 {
            Some(GpsStatus::SyncNmea)
        } else if self.gps_val == 0x56 {
            Some(GpsStatus::NmeaOnly)
        } else if self.gps_val == 0x50 {
            Some(GpsStatus::SyncOnly)
        } else if self.gps_val == 0x00 {
            Some(GpsStatus::NotConnected)
        } else {
            None
        };
        match (dt_opt, gps_opt) {
            (Some(dt), Some(gps)) => Some(
                Status {
                    dt,
                    gps,
                    temperature: self.temp_val,
                    version: self.version_val,
                    ..*st
                },
            ),
            _ => None,
        }
    }

    /// Decode the flat per-laser buffer into a fresh calibration table.
    fn process_calib_db(&self, calib_db: &mut CalibDb)
        requires
            self.wf(),
        ensures
            final (calib_db)@ == spec_decoded_lasers(self@.lasers),
            final (calib_db).wf(),
    {
        let mut lasers: Vec<LaserCalib> = Vec::new();
        let mut i: usize = 0;
        while i < LASER_COUNT
            invariant
                self.wf(),
                i <= LASER_COUNT,
                lasers@.len() == i,
                forall|k: int| 0 <= k < i ==> lasers@[k] == spec_decode_laser(self@.lasers, k),
            decreases LASER_COUNT - i,
        {
            let base = LASER_REC_LEN * i;
            let flat = self.lasers.as_slice();
            let rec = LaserCalib {
                min_intensity: self.lasers[base + 19],
                max_intensity: self.lasers[base + 20],
                vert_corr: read_i16_le(flat, base + 1),
                rot_corr: read_i16_le(flat, base + 3),
                dist_correction: read_i16_le(flat, base + 5),
                dist_corr_x: read_i16_le(flat, base + 7),
                dist_corr_y: read_i16_le(flat, base + 9),
                vert_offset: read_i16_le(flat, base + 11),
                horiz_offset: read_i16_le(flat, base + 13),
                focal_dist: read_i16_le(flat, base + 15),
                focal_slope: read_i16_le(flat, base + 17),
            };
            lasers.push(rec);
            i = i + 1;
        }
        assert(lasers@ =~= spec_decoded_lasers(self@.lasers));
        calib_db.lasers = lasers;
    }

    /// Decode the completed sensor-state buffer and, on success, commit the
    /// status fields, latch initialisation and rebuild the calibration table.
    fn process_full_cycle(&mut self, status: &mut Status, calib_db: &mut CalibDb) -> (ok: bool)
        requires
            old(self).wf(),
        ensures
            final (self).wf(),
            ({
                let decoded = spec_full_cycle_status(old(self)@.sensor_state, *old(status));
                match decoded {
                    Some(st2) => ok && final (self)@ == AccumModel {
                        init: true,
                        ..old(self)@
                    } && *final (status) == st2 && final (calib_db)@ == spec_decoded_lasers(
                        old(self)@.lasers,
                    ) && final (calib_db).wf(),
                    None => !ok && final (self)@ == old(self)@ && *final (status) == *old(status)
                        && *final (calib_db) == *old(calib_db),
                }
            }),
    {
        let b16 = self.sensor_state[16];
        let rt_opt: Option<ReturnType> = if b16 == 0 {
            Some(ReturnType::Strongest)
        } else if b16 == 1 {
            Some(ReturnType::Last)
        } else if b16 == 2 {
            Some(ReturnType::Both)
        } else {
            None
        };
        let b18 = self.sensor_state[18];
        let pl_opt: Option<PowerLevel> = if b18 == 0xa8 {
            Some(PowerLevel::AutoNormalized)
        } else if b18 == 0xa0 {
            Some(PowerLevel::AutoRaw)
        } else if b18 & 0x0f == 8 && ((b18 & 0xf0) >> 4) < 8 {
            Some(PowerLevel::Manual((b18 & 0xf0) >> 4))
        } else {
            None
        };
        match (rt_opt, pl_opt) {
            (Some(return_type), Some(power_level)) => {
                self.init = true;
                let d = self.sensor_state.as_slice();
                let rpm = read_u16_le(d, 0);
                let fov_start = read_u16_le(d, 2);
                let fov_end = read_u16_le(d, 4);
                let real_life_time = read_u16_le(d, 6);
                status.rpm = rpm;
                status.fov_start = fov_start;
                status.fov_end = fov_end;
                status.real_life_time = real_life_time;
                status.ip_source = Ipv4 {
                    o0: self.sensor_state[8],
                    o1: self.sensor_state[9],
                    o2: self.sensor_state[10],
                    o3: self.sensor_state[11],
                };
                status.ip_dest = Ipv4 {
                    o0: self.sensor_state[12],
                    o1: self.sensor_state[13],
                    o2: self.sensor_state[14],
                    o3: self.sensor_state[15],
                };
                status.return_type = return_type;
                status.power_level = power_level;
                self.process_calib_db(calib_db);
                true
            },
            _ => false,
        }
    }

    /// Copy the seven payload values into `dst` at `base`.
    fn copy_values(dst: &mut Vec<u8>, base: usize, vals: &Vec<u8>)
        requires
            base + 7 <= old(dst)@.len(),
            vals@.len() == 7,
        ensures
            final (dst)@ == spec_write_range(old(dst)@, base as int, vals@, 7),
    {
        let dlen = dst.len();
        let mut j: usize = 0;
        while j < 7
            invariant
                j <= 7,
                dlen == dst@.len(),
                base + 7 <= dlen,
                vals@.len() == 7,
                dst@.len() == old(dst)@.len(),
                forall|k: int|
                    0 <= k < dst@.len() ==> dst@[k] == (if base <= k < base + j {
                        vals@[k - base]
                    } else {
                        old(dst)@[k]
                    }),
            decreases 7 - j,
        {
            dst[base + j] = vals[j];
            j = j + 1;
        }
        assert(dst@ =~= spec_write_range(old(dst)@, base as int, vals@, 7));
    }

    /// Consume the payload of a completed mini-cycle, stepping the
    /// higher-level cycle or resetting it to the sync state.
    fn consume_cycle(&mut self, status: &mut Status, calib_db: &mut CalibDb)
        requires
            old(self).wf(),
        ensures
            final (self).wf(),
            ({
                let r = spec_consume(old(self)@, *old(status), old(calib_db)@);
                &&& final (self)@ == r.accum
                &&& *final (status) == r.status
                &&& final (calib_db)@ == r.db
            }),
            old(self)@.init ==> final (self)@.init,
            final (calib_db)@.len() == old(calib_db)@.len() || final (calib_db).wf(),
    {
        let ids = &self.cycle_ids;
        let vals = &self.cycle_values;
        match self.cycle_state {
            CycleState::FirstCycle => {
                if ids[0] == 49 && ids[1] == 50 && ids[2] == 51 && ids[3] == 52 && ids[4] == 53
                    && ids[5] == 0xf7 && ids[6] == 0xf6 && vals[0] == 85 && vals[1] == 78
                    && vals[2] == 73 && vals[3] == 84 && vals[4] == 35 {
                    status.upper_threshold = vals[5];
                    status.lower_threshold = vals[6];
                    self.cycle_state = CycleState::Lasers { laser: 0, part: 0 };
                }
            },
            CycleState::Lasers { laser, part } => {
                if part <= 2 {
                    let digits = ids[0] == 49 && ids[1] == 50 && ids[2] == 51 && ids[3] == 52
                        && ids[4] == 53 && ids[5] == 54 && ids[6] == 55;
                    if digits && (part != 0 || vals[0] == laser) {
                        if !self.init {
                            let base = (LASER_REC_LEN * (laser as usize)) + 7 * (part as usize);
                            let payload = clone_bytes(&self.cycle_values);
                            Self::copy_values(&mut self.lasers, base, &payload);
                        }
                        if laser == 63 && part == 2 {
                            self.cycle_state = CycleState::CalibrationDt;
                        } else {
                            self.cycle_state = CycleState::Lasers { laser, part: part + 1 };
                        }
                    } else {
                        self.cycle_state = CycleState::FirstCycle;
                    }
                } else {
                    if ids[0] == 87 && ids[1] == 50 && ids[2] == 51 && ids[3] == 52 && ids[4] == 53
                        && ids[5] == 54 && ids[6] == 55 {
                        let b = vals[0];
                        status.lens_contamination = b & 0x01 != 0;
                        status.hot = b & 0x02 != 0;
                        status.cold = b & 0x04 != 0;
                        status.pps = b & 0x20 != 0;
                        status.gps_time = b & 0x40 != 0;
                        self.cycle_state = CycleState::Lasers { laser: laser + 1, part: 0 };
                    } else {
                        self.cycle_state = CycleState::FirstCycle;
                    }
                }
            },
            CycleState::CalibrationDt => {
                let digits = ids[0] == 49 && ids[1] == 50 && ids[2] == 51 && ids[3] == 52
                    && ids[4] == 53 && ids[5] == 54 && ids[6] == 55;
                if digits {
                    match make_dt(vals[0], vals[1], vals[2], vals[3], vals[4], vals[5]) {
                        Some(dt) => {
                            status.calib_dt = dt;
                            status.humidity = vals[6];
                            self.cycle_state = CycleState::SensorState { part: 0 };
                        },
                        None => {
                            self.cycle_state = CycleState::FirstCycle;
                        },
                    }
                } else {
                    self.cycle_state = CycleState::FirstCycle;
                }
            },
            CycleState::SensorState { part } => {
                if part == 0 {
                    if ids[0] == 0xfe && ids[1] == 0xff && ids[2] == 0xfc && ids[3] == 0xfd
                        && ids[4] == 0xfa && ids[5] == 0xfb && ids[6] == 0x37 {
                        let payload = clone_bytes(&self.cycle_values);
                        Self::copy_values(&mut self.sensor_state, 0, &payload);
                        self.cycle_state = CycleState::SensorState { part: 1 };
                    } else {
                        self.cycle_state = CycleState::FirstCycle;
                    }
                } else if part == 1 {
                    let digits = ids[0] == 49 && ids[1] == 50 && ids[2] == 51 && ids[3] == 52
                        && ids[4] == 53 && ids[5] == 54 && ids[6] == 55;
                    if digits {
                        let payload = clone_bytes(&self.cycle_values);
                        Self::copy_values(&mut self.sensor_state, 7, &payload);
                        self.cycle_state = CycleState::SensorState { part: 2 };
                    } else {
                        self.cycle_state = CycleState::FirstCycle;
                    }
                } else {
                    if ids[0] == 0x31 && ids[1] == 0x32 && ids[2] == 0xf9 && ids[3] == 0x34
                        && ids[4] == 0xf8 && ids[5] == 0x36 && ids[6] == 0x37 {
                        let payload = clone_bytes(&self.cycle_values);
                        Self::copy_values(&mut self.sensor_state, 14, &payload);
                        self.process_full_cycle(status, calib_db);
                        self.cycle_state = CycleState::FirstCycle;
                    } else {
                        self.cycle_state = CycleState::FirstCycle;
                    }
                }
            },
        }
    }

    /// Feed one telemetry byte pair.
    ///
    /// Out-of-schedule pairs only reset the mini-cycle window; malformed
    /// payloads only reset the higher-level cycle.  Once `init` has latched,
    /// nothing clears it, and the per-laser buffer is frozen.
    pub fn feed(&mut self, status: StatusBytes, sensor_status: &mut Status, calib_db: &mut CalibDb)
        requires
            old(self).wf(),
        ensures
            final (self).wf(),
            ({
                let r = spec_feed(
                    old(self)@,
                    *old(sensor_status),
                    old(calib_db)@,
                    status.id,
                    status.value,
                );
                &&& final (self)@ == r.accum
                &&& *final (sensor_status) == r.status
                &&& final (calib_db)@ == r.db
            }),
            old(self)@.init ==> final (self)@.init,
    {
        let id = status.id;
        let value = status.value;
        let is_ok: bool;
        if id == 72 {
            self.dt[3] = value;
            is_ok = self.cycle_pos == 0;
        } else if id == 77 {
            self.dt[4] = value;
            is_ok = self.cycle_pos == 1;
        } else if id == 83 {
            self.dt[5] = value;
            is_ok = self.cycle_pos == 2;
        } else if id == 68 {
            self.dt[2] = value;
            is_ok = self.cycle_pos == 3;
        } else if id == 78 {
            self.dt[1] = value;
            is_ok = self.cycle_pos == 4;
        } else if id == 89 {
            self.dt[0] = value;
            is_ok = self.cycle_pos == 5;
        } else if id == 71 {
            self.gps_val = value;
            is_ok = self.cycle_pos == 6;
        } else if id == 84 {
            self.temp_val = value;
            is_ok = self.cycle_pos == 7;
        } else if id == 86 {
            self.version_val = value;
            is_ok = self.cycle_pos == 8;
        } else {
            is_ok = self.cycle_pos > 8 && self.cycle_pos < 16;
        }
        assert(self@ == spec_store_id(old(self)@, id, value));

        if !is_ok {
            self.cycle_pos = 0;
            return ;
        }
        if self.cycle_pos == 8 {
            match self.make_status(sensor_status) {
                Some(st2) => {
                    *sensor_status = st2;
                },
                None => {
                    self.cycle_state = CycleState::FirstCycle;
                },
            }
        }
        if self.cycle_pos <= 8 {
            self.cycle_pos = self.cycle_pos + 1;
            return ;
        }
        let idx = self.cycle_pos - 9;
        self.cycle_ids[idx] = id;
        self.cycle_values[idx] = value;
        if self.cycle_pos == 15 {
            self.consume_cycle(sensor_status, calib_db);
            self.cycle_pos = 0;
        } else {
            self.cycle_pos = self.cycle_pos + 1;
        }
    }
}

/// The first `n` rows of the flat per-laser buffer carry their own index in
/// byte 0.
pub open spec fn spec_rows_indexed(lasers: Seq<u8>, n: int) -> bool {
    forall|j: int| 0 <= j < n ==> #[trigger] lasers[21 * j] == j
}

/// The buffer discipline of the laser cycle.  A row is written only at its
/// own position (the schedule checks the laser index byte before copying),
/// so the rows behind the cycle's progress are always self-indexed, all 64
/// of them once the cycle has passed the lasers — and, once initialisation
/// has latched, forever, because the buffer freezes.
pub open spec fn spec_accum_inv(a: AccumModel) -> bool {
    &&& (a.init ==> spec_rows_indexed(a.lasers, 64))
    &&& (!a.init ==> match a.cycle_state {
        CycleState::FirstCycle => true,
        CycleState::Lasers { laser, part } => spec_rows_indexed(
            a.lasers,
            if part >= 1 {
                laser as int + 1
            } else {
                laser as int
            },
        ),
        CycleState::CalibrationDt => spec_rows_indexed(a.lasers, 64),
        CycleState::SensorState { .. } => spec_rows_indexed(a.lasers, 64),
    })
}

/// Feeding preserves the buffer discipline.
pub proof fn lemma_feed_preserves_row_index(
    a: AccumModel,
    st: Status,
    db: Seq<LaserCalib>,
    id: u8,
    value: u8,
)
    requires
        spec_accum_wf(a),
        spec_accum_inv(a),
    ensures
        spec_accum_inv(spec_feed(a, st, db, id, value).accum),
{
    let r = spec_feed(a, st, db, id, value);
    let a1 = spec_store_id(a, id, value);
    assert(a1.lasers == a.lasers && a1.init == a.init && a1.cycle_state == a.cycle_state);
    if spec_schedule_ok(id, a.cycle_pos) && a.cycle_pos == 15 {
        let a3 = AccumModel {
            cycle_ids: a1.cycle_ids.update(a.cycle_pos - 9, id),
            cycle_values: a1.cycle_values.update(a.cycle_pos - 9, value),
            ..a1
        };
        let c = spec_consume(a3, st, db);
        assert(r.accum == AccumModel { cycle_pos: 0, ..c.accum });
        match a3.cycle_state {
            CycleState::FirstCycle => {},
            CycleState::Lasers { laser, part } => {
                if part <= 2 && spec_ids_digits(a3.cycle_ids) && (part != 0 || a3.cycle_values[0]
                    == laser) && !a3.init {
                    let base = 21 * laser + 7 * part;
                    let lasers2 = spec_write_range(a3.lasers, base as int, a3.cycle_values, 7);
                    assert(c.accum.lasers == lasers2);
                    // rows before the one being written are untouched
                    assert(forall|j: int|
                        0 <= j < laser ==> #[trigger] lasers2[21 * j] == a3.lasers[21 * j]);
                    if part == 0 {
                        assert(lasers2[21 * laser as int] == a3.cycle_values[0]);
                    } else {
                        assert(lasers2[21 * laser as int] == a3.lasers[21 * laser as int]);
                    }
                }
            },
            CycleState::CalibrationDt => {},
            CycleState::SensorState { part } => {},
        }
    }
}

/// Whenever feeding one telemetry pair rebuilds the calibration table (in
/// particular whenever it latches initialisation), every rebuilt record was
/// decoded from a row that carries that record's own laser index in its
/// first byte — the consistency the wire schedule enforces and the decoder
/// may rely on.
pub proof fn lemma_db_rebuilt_from_indexed_rows(
    a: AccumModel,
    st: Status,
    db: Seq<LaserCalib>,
    id: u8,
    value: u8,
)
    requires
        spec_accum_wf(a),
        spec_accum_inv(a),
    ensures
        ({
            let r = spec_feed(a, st, db, id, value);
            (r.db != db || (!a.init && r.accum.init)) ==> forall|i: int|
                0 <= i < 64 ==> #[trigger] r.db[i] == spec_decode_laser(a.lasers, i) && a.lasers[21
                    * i] == i
        }),
{
    let r = spec_feed(a, st, db, id, value);
    if r.db != db || (!a.init && r.accum.init) {
        assert(spec_rows_indexed(a.lasers, 64));
        assert(r.db == spec_decoded_lasers(a.lasers));
        assert(forall|i: int| 0 <= i < 64 ==> #[trigger] r.db[i] == spec_decode_laser(
            a.lasers,
            i,
        ));
    }
}

/// Telemetry never commits an ill-formed status: every path that writes the
/// clock or the calibration date first validates it, and every committed
/// power level lies in its allowed set.  The decoded calibration table
/// always holds one record per laser.  (The latch on `init` is part of
/// [`StatusAccumulator::feed`]'s own contract.)
pub proof fn lemma_feed_preserves_wf(
    a: AccumModel,
    st: Status,
    db: Seq<LaserCalib>,
    id: u8,
    value: u8,
)
    requires
        st.wf(),
        db.len() == LASER_COUNT,
    ensures
        spec_feed(a, st, db, id, value).status.wf(),
        spec_feed(a, st, db, id, value).db.len() == LASER_COUNT,
{
}

/// A byte-for-byte copy of a byte vector.
fn clone_bytes(v: &Vec<u8>) -> (r: Vec<u8>)
    ensures
        r@ == v@,
{
    let mut r: Vec<u8> = Vec::new();
    let mut i: usize = 0;
    while i < v.len()
        invariant
            i <= v@.len(),
            r@.len() == i,
            forall|k: int| 0 <= k < i ==> r@[k] == v@[k],
        decreases v@.len() - i,
    {
        r.push(v[i]);
        i = i + 1;
    }
    assert(r@ =~= v@);
    r
}

} // verus!
