//! The 64-laser sensor: calibration table, telemetry reconstruction and
//! point selection.

pub mod calib;
pub mod convertor;
pub mod status;
pub mod status_accum;
pub mod status_types;

pub use calib::{CalibDb, LaserCalib};
pub use convertor::Hdl64Convertor;
pub use status::StatusListener;
pub use status_types::{GpsStatus, Ipv4, PowerLevel, ReturnType, Status};
