//! The 64-laser sensor's status listener.
//!
//! The listener owns the reconstructed [`Status`], the raw calibration table
//! and the accumulator that builds both from the telemetry byte pairs.  It
//! becomes usable once the accumulator has seen one full telemetry cycle,
//! which `init` waits for — at least 4160 packets (about a second), more if
//! packets are lost, and bounded by a wall-clock window.

use vstd::prelude::*;

use crate::clock::{elapsed_secs, monotonic_now};
use crate::hdl64::calib::{CalibDb, LaserCalib, LASER_COUNT};
use crate::hdl64::status_accum::{
    default_sensor_status, lemma_feed_preserves_row_index, lemma_feed_preserves_wf, spec_feed,
    AccumModel, StatusAccumulator,
};
use crate::hdl64::status_types::Status;
use crate::packet::{get_status, PacketSource, StatusBytes};
use crate::ProcessError;

verus! {

/// Seconds the initialisation may spend before giving up.
pub const INIT_TIMEOUT_SECS: u64 = 5;

/// Status listener of the 64-laser unit.
pub struct StatusListener {
    status: Status,
    calib_db: CalibDb,
    accum: StatusAccumulator,
}

impl StatusListener {
    /// The status reconstructed so far.
    pub closed spec fn status_view(&self) -> Status {
        self.status
    }

    /// The calibration table reconstructed so far.
    pub closed spec fn db_view(&self) -> Seq<LaserCalib> {
        self.calib_db@
    }

    /// The accumulator state.
    pub closed spec fn accum_view(&self) -> AccumModel {
        self.accum@
    }

    /// A listener is well formed when its accumulator is well formed and
    /// keeps the laser-buffer discipline, its table holds one record per
    /// laser, and its status has the committed shapes.
    pub open spec fn wf(&self) -> bool {
        &&& crate::hdl64::status_accum::spec_accum_wf(self.accum_view())
        &&& crate::hdl64::status_accum::spec_accum_inv(self.accum_view())
        &&& self.db_view().len() == LASER_COUNT
        &&& self.status_view().wf()
    }

    /// Whether a full telemetry cycle has completed.
    pub fn initialised(&self) -> (r: bool)
        ensures
            r == self.accum_view().init,
    {
        self.accum.is_initialised()
    }

    /// The current status.
    pub fn get_status(&self) -> (r: &Status)
        ensures
            *r == self.status_view(),
    {
        &self.status
    }

    /// A copy of the calibration data read from the sensor, in raw integer
    /// units.
    pub fn get_calib_db(&self) -> (r: CalibDb)
        ensures
            r@ == self.db_view(),
    {
        self.calib_db.duplicate()
    }

    /// Feed the status byte pair of one packet.  Once initialisation has
    /// latched, nothing un-latches it.
    pub fn feed(&mut self, status: StatusBytes)
        requires
            old(self).wf(),
        ensures
            final (self).wf(),
            ({
                let r = spec_feed(
                    old(self).accum_view(),
                    old(self).status_view(),
                    old(self).db_view(),
                    status.id,
                    status.value,
                );
                &&& final (self).accum_view() == r.accum
                &&& final (self).status_view() == r.status
                &&& final (self).db_view() == r.db
            }),
            old(self).accum_view().init ==> final (self).accum_view().init,
    {
        proof {
            lemma_feed_preserves_wf(
                self.accum@,
                self.status,
                self.calib_db@,
                status.id,
                status.value,
            );
            lemma_feed_preserves_row_index(
                self.accum@,
                self.status,
                self.calib_db@,
                status.id,
                status.value,
            );
        }
        let mut st = self.status;
        self.accum.feed(status, &mut st, &mut self.calib_db);
        self.status = st;
    }

    /// Consume packets until the accumulator has seen one full telemetry
    /// cycle.  Gives up with `InitTimeout` once the wall-clock window has
    /// passed, with `SourceExhausted` when the source runs dry, and hands
    /// any source failure through.
    pub fn init<T: PacketSource>(packet_source: &mut T) -> (r: Result<StatusListener, ProcessError>)
        ensures
            match r {
                Ok(l) => l.wf() && l.accum_view().init,
                Err(e) => e == ProcessError::InitTimeout || e == ProcessError::SourceExhausted
                    || e matches ProcessError::Source(_),
            },
    {
        let mut accum = StatusAccumulator::new();
        let mut sensor_status = default_sensor_status();
        let mut calib_db = CalibDb::new();
        let t0 = monotonic_now();
        loop
            invariant
                accum.wf(),
                crate::hdl64::status_accum::spec_accum_inv(accum@),
                sensor_status.wf(),
                calib_db.wf(),
            decreases packet_source.remaining(),
        {
            if elapsed_secs(&t0) > INIT_TIMEOUT_SECS {
                return Err(ProcessError::InitTimeout);
            }
            let packet = match packet_source.next_packet() {
                Ok(Some(got)) => got.1,
                Ok(None) => {
                    return Err(ProcessError::SourceExhausted);
                },
                Err(e) => {
                    return Err(ProcessError::Source(e));
                },
            };
            let sb = get_status(packet.as_slice());
            proof {
                lemma_feed_preserves_wf(accum@, sensor_status, calib_db@, sb.id, sb.value);
                lemma_feed_preserves_row_index(accum@, sensor_status, calib_db@, sb.id, sb.value);
            }
            accum.feed(sb, &mut sensor_status, &mut calib_db);
            if accum.is_initialised() {
                return Ok(StatusListener { status: sensor_status, calib_db, accum });
            }
        }
    }
}

} // verus!
