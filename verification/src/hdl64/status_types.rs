//! Telemetry record of the 64-laser sensor.

use vstd::prelude::*;

use crate::datetime::{spec_valid_dt, DateTime};

verus! {

/// Possible statuses of the external GPS sensor connection.
#[derive(Copy, Clone, Debug, PartialEq, Eq, Structural)]
pub enum GpsStatus {
    /// NMEA messages and synchronization pulses are available.
    SyncNmea,
    /// Only NMEA messages are available.
    NmeaOnly,
    /// Only synchronization pulses are available.
    SyncOnly,
    /// GPS sensor not connected.
    NotConnected,
}

/// Multiple return modes.
#[derive(Copy, Clone, Debug, PartialEq, Eq, Structural)]
pub enum ReturnType {
    /// Strongest return only (default).
    Strongest,
    /// Last return only.
    Last,
    /// Both strongest and last returns.  If the strongest return is equal to
    /// the last return, the next strongest return is reported.
    Both,
}

/// Power level status.
#[derive(Copy, Clone, Debug, PartialEq, Eq, Structural)]
pub enum PowerLevel {
    /// Automatically selected laser power with normalized intensity returns.
    AutoNormalized,
    /// Automatically selected laser power with raw intensity returns.
    AutoRaw,
    /// Manually selected power value, from 0 to 7.
    Manual(u8),
}

/// An IPv4 address, one octet per field.
#[derive(Copy, Clone, Debug, PartialEq, Eq, Structural)]
pub struct Ipv4 {
    pub o0: u8,
    pub o1: u8,
    pub o2: u8,
    pub o3: u8,
}

/// Status of the 64-laser unit: clock, health, field of view, addressing,
/// return mode and power level, as reconstructed from the telemetry stream.
#[derive(Copy, Clone, Debug, PartialEq, Eq, Structural)]
pub struct Status {
    /// Current sensor datetime.
    pub dt: DateTime,
    /// Status of the GPS sensor connection.
    pub gps: GpsStatus,
    /// Inner sensor temperature in Celsius.
    pub temperature: u8,
    /// Firmware version: high nibble major, low nibble minor.
    pub version: u8,
    /// True if the laser lenses must be cleaned.
    pub lens_contamination: bool,
    /// True if the sensor is too hot internally.
    pub hot: bool,
    /// True if the sensor is too cold internally.
    pub cold: bool,
    /// True if a pulse-per-second signal is available from the GPS sensor.
    pub pps: bool,
    /// True if the unit synchronized its internal time with GPS satellites.
    pub gps_time: bool,
    /// Number of sensor rotations per minute.
    pub rpm: u16,
    /// Start of the field of view, hundredths of a degree.
    pub fov_start: u16,
    /// End of the field of view, hundredths of a degree.
    pub fov_end: u16,
    /// Accumulated runtime, hours.
    pub real_life_time: u16,
    /// IP source address.
    pub ip_source: Ipv4,
    /// IP destination address.
    pub ip_dest: Ipv4,
    /// Multiple-return mode.
    pub return_type: ReturnType,
    /// Laser output power level.
    pub power_level: PowerLevel,
    /// Humidity measured by the sensor (reserved).
    pub humidity: u8,
    /// Noise threshold for the upper laser bank.
    pub upper_threshold: u8,
    /// Noise threshold for the lower laser bank.
    pub lower_threshold: u8,
    /// Date and time when the sensor calibration was performed.
    pub calib_dt: DateTime,
}

impl Status {
    /// The shapes a reconstructed status always has: real dates and, for a
    /// manual power level, a value below 8.
    pub open spec fn wf(self) -> bool {
        &&& spec_valid_dt(self.dt)
        &&& spec_valid_dt(self.calib_dt)
        &&& (self.power_level matches PowerLevel::Manual(v) ==> v < 8)
    }
}

} // verus!
