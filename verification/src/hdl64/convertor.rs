//! Point selection for the 64-laser sensor.
//!
//! The unit fires from two banks of 32 lasers.  The `0xFF 0xEE` header marks
//! the upper bank (global lasers 0..31) and `0xFF 0xDD` the lower bank
//! (global lasers 32..63); any other header rejects the datagram.  The
//! convertor carries the sensor's calibration table so that the
//! floating-point projection downstream can consume the selected points
//! together with their per-laser constants.

use vstd::prelude::*;

use crate::hdl64::calib::CalibDb;
use crate::packet::{PacketMeta, PACKET_SIZE};
use crate::project::{project_packet, spec_project, SensorModel};
use crate::{ConversionError, ProjectedPoint};

verus! {

/// Convertor of the 64-laser unit's packets into projection inputs.
#[derive(Debug)]
pub struct Hdl64Convertor {
    pub(crate) db: CalibDb,
}

impl View for Hdl64Convertor {
    type V = Seq<crate::hdl64::calib::LaserCalib>;

    /// A convertor is its calibration table.
    closed spec fn view(&self) -> Seq<crate::hdl64::calib::LaserCalib> {
        self.db@
    }
}

impl Hdl64Convertor {
    /// Build a convertor around a calibration table.
    pub fn new(db: CalibDb) -> (r: Hdl64Convertor)
        ensures
            r@ == db@,
    {
        Hdl64Convertor { db }
    }

    /// A copy of the calibration table the convertor carries.
    pub fn calib_db(&self) -> (r: CalibDb)
        ensures
            r@ == self@,
    {
        self.db.duplicate()
    }

    /// Select the measurements of one datagram for projection: validate the
    /// bank headers, derive global laser identifiers, run the double-return
    /// filter and return the surviving points along with the packet's meta
    /// record.
    pub fn convert(&self, data: &[u8]) -> (r: Result<
        (PacketMeta, Vec<ProjectedPoint>),
        ConversionError,
    >)
        requires
            data@.len() == PACKET_SIZE,
        ensures
            match r {
                Ok(res) => {
                    &&& res.0 == crate::packet::spec_packet_meta(data@)
                    &&& spec_project(data@, SensorModel::Hdl64) matches Some(st) && res.1@
                        == st.out
                    &&& forall|j: int|
                        0 <= j < res.1@.len() ==> (#[trigger] res.1@[j]).laser_id < 64
                },
                Err(_) => spec_project(data@, SensorModel::Hdl64) is None,
            },
    {
        project_packet(SensorModel::Hdl64, data)
    }
}

} // verus!
