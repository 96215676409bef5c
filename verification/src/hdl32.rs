//! The 32-laser sensor.
//!
//! This unit has a single bank of 32 lasers and accepts only the `0xFF 0xEE`
//! bank header, so the global laser identifier equals the in-block position.
//! Its vertical angles come from a fixed table and need no per-sensor
//! calibration, which leaves nothing to configure here.

use vstd::prelude::*;

use crate::packet::{PacketMeta, PACKET_SIZE};
use crate::project::{project_packet, spec_project, SensorModel};
use crate::{ConversionError, ProjectedPoint};

verus! {

/// Default convertor of the 32-laser unit's packets into projection inputs.
#[derive(Copy, Clone, Debug, Default)]
pub struct Hdl32Convertor;

impl Hdl32Convertor {
    /// Select the measurements of one datagram for projection: validate the
    /// bank headers, run the double-return filter and return the surviving
    /// points along with the packet's meta record.
    pub fn convert(&self, data: &[u8]) -> (r: Result<
        (PacketMeta, Vec<ProjectedPoint>),
        ConversionError,
    >)
        requires
            data@.len() == PACKET_SIZE,
        ensures
            match r {
                Ok(res) => {
                    &&& res.0 == crate::packet::spec_packet_meta(data@)
                    &&& spec_project(data@, SensorModel::Hdl32) matches Some(st) && res.1@
                        == st.out
                    &&& forall|j: int|
                        0 <= j < res.1@.len() ==> (#[trigger] res.1@[j]).laser_id < 32
                },
                Err(_) => spec_project(data@, SensorModel::Hdl32) is None,
            },
    {
        project_packet(SensorModel::Hdl32, data)
    }
}

} // verus!
