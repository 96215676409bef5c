//! Composition of a packet source, a point convertor and a status listener.
//!
//! A [`PointSource`] pulls one raw packet at a time, selects its points and
//! feeds the packet's status byte pair to the 64-laser listener where there
//! is one.  There are only two sensor models, so the convertor and listener
//! are a tagged pair rather than type parameters.

use vstd::prelude::*;

use crate::hdl32::Hdl32Convertor;
use crate::hdl64::calib::{CalibDb, LaserCalib, LASER_COUNT};
use crate::hdl64::status::StatusListener;
use crate::hdl64::status_accum::{spec_feed, AccumModel};
use crate::hdl64::status_types::Status;
use crate::hdl64::Hdl64Convertor;
use crate::packet::{spec_packet_meta, PacketMeta, PacketSource, PeerAddr, PACKET_SIZE};
use crate::project::{spec_project, SensorModel};
use crate::{ProcessError, ProjectedPoint};

verus! {

/// The model-specific half of a point source.
enum Decoder {
    Hdl32(Hdl32Convertor),
    Hdl64 { convertor: Hdl64Convertor, listener: StatusListener },
}

/// Listens to a packet source and converts packet data to points.
pub struct PointSource<T: PacketSource> {
    packet_source: T,
    decoder: Decoder,
}

impl<T: PacketSource> PointSource<T> {
    /// Which sensor model this source decodes for.
    pub closed spec fn model(&self) -> SensorModel {
        match self.decoder {
            Decoder::Hdl32(_) => SensorModel::Hdl32,
            Decoder::Hdl64 { .. } => SensorModel::Hdl64,
        }
    }

    /// The status reconstructed so far; nothing for the 32-laser unit.
    pub closed spec fn status_view(&self) -> Option<Status> {
        match self.decoder {
            Decoder::Hdl32(_) => None,
            Decoder::Hdl64 { listener, .. } => Some(listener.status_view()),
        }
    }

    /// The calibration table carried by the convertor; nothing for the
    /// 32-laser unit, whose angles are fixed.
    pub closed spec fn calib_view(&self) -> Option<Seq<LaserCalib>> {
        match self.decoder {
            Decoder::Hdl32(_) => None,
            Decoder::Hdl64 { convertor, .. } => Some(convertor@),
        }
    }

    /// The accumulator state of the 64-laser listener.
    pub closed spec fn accum_view(&self) -> Option<AccumModel> {
        match self.decoder {
            Decoder::Hdl32(_) => None,
            Decoder::Hdl64 { listener, .. } => Some(listener.accum_view()),
        }
    }

    /// The listener's own calibration table, as decoded from telemetry.
    pub closed spec fn listener_db_view(&self) -> Option<Seq<LaserCalib>> {
        match self.decoder {
            Decoder::Hdl32(_) => None,
            Decoder::Hdl64 { listener, .. } => Some(listener.db_view()),
        }
    }

    /// An upper bound on the packets the underlying source can still yield.
    pub closed spec fn remaining(&self) -> nat {
        self.packet_source.remaining()
    }

    /// For the 64-laser unit the listener is well formed and initialised;
    /// the 32-laser unit carries no state to be well formed.
    pub closed spec fn wf(&self) -> bool {
        match self.decoder {
            Decoder::Hdl32(_) => true,
            Decoder::Hdl64 { listener, .. } => listener.wf() && listener.accum_view().init,
        }
    }

    /// The model decides which views exist: the 64-laser unit carries a
    /// listener and a calibration table, the 32-laser unit carries neither.
    pub proof fn lemma_views_match_model(&self)
        ensures
            self.model() == SensorModel::Hdl64 ==> self.accum_view() is Some
                && self.status_view() is Some && self.listener_db_view() is Some
                && self.calib_view() is Some,
            self.model() == SensorModel::Hdl32 ==> self.accum_view() is None
                && self.status_view() is None && self.listener_db_view() is None
                && self.calib_view() is None,
    {
    }

    /// Initialise a source for the 32-laser unit; it needs no calibration
    /// and no status cycle.
    pub fn hdl32_init(packet_source: T) -> (r: PointSource<T>)
        ensures
            r.model() == SensorModel::Hdl32,
            r.wf(),
            r.remaining() == packet_source.remaining(),
    {
        PointSource { packet_source, decoder: Decoder::Hdl32(Hdl32Convertor) }
    }

    /// Initialise a source for the 64-laser unit: wait for one full
    /// telemetry cycle, then build the convertor from the decoded
    /// calibration table.
    pub fn hdl64_init(packet_source: T) -> (r: Result<PointSource<T>, ProcessError>)
        ensures
            match r {
                Ok(s) => {
                    &&& s.model() == SensorModel::Hdl64
                    &&& s.wf()
                    &&& s.status_view() matches Some(st) && st.wf()
                    &&& s.calib_view() == s.listener_db_view()
                },
                Err(e) => e == ProcessError::InitTimeout || e == ProcessError::SourceExhausted
                    || e matches ProcessError::Source(_),
            },
    {
        let mut packet_source = packet_source;
        let listener = match StatusListener::init(&mut packet_source) {
            Ok(l) => l,
            Err(e) => {
                return Err(e);
            },
        };
        let db = listener.get_calib_db();
        let convertor = Hdl64Convertor::new(db);
        Ok(PointSource { packet_source, decoder: Decoder::Hdl64 { convertor, listener } })
    }

    /// The current sensor status; nothing for the 32-laser unit.
    pub fn get_status(&self) -> (r: Option<&Status>)
        ensures
            match r {
                Some(st) => self.status_view() == Some(*st) && (self.wf() ==> st.wf()),
                None => self.status_view() is None,
            },
            (r is Some) == (self.model() == SensorModel::Hdl64),
    {
        match &self.decoder {
            Decoder::Hdl32(_) => None,
            Decoder::Hdl64 { listener, .. } => Some(listener.get_status()),
        }
    }

    /// Replace the 64-laser calibration table, for a caller that has a more
    /// precise one than the sensor transmits.  Does nothing for the
    /// 32-laser unit.
    pub fn hdl64_set_calib_db(&mut self, calib_db: CalibDb)
        requires
            old(self).wf(),
        ensures
            final (self).wf(),
            final (self).model() == old(self).model(),
            final (self).remaining() == old(self).remaining(),
            final (self).status_view() == old(self).status_view(),
            old(self).model() == SensorModel::Hdl64 ==> final (self).calib_view() == Some(
                calib_db@,
            ),
    {
        match &mut self.decoder {
            Decoder::Hdl32(_) => {},
            Decoder::Hdl64 { convertor, .. } => {
                *convertor = Hdl64Convertor::new(calib_db);
            },
        }
    }

    /// A copy of the calibration table the convertor uses; nothing for the
    /// 32-laser unit.
    pub fn get_calib_db(&self) -> (r: Option<CalibDb>)
        ensures
            match r {
                Some(db) => self.calib_view() == Some(db@),
                None => self.calib_view() is None,
            },
    {
        match &self.decoder {
            Decoder::Hdl32(_) => None,
            Decoder::Hdl64 { convertor, .. } => Some(convertor.calib_db()),
        }
    }

    /// Process the points of the next received packet.
    ///
    /// Pulls one packet, selects its points, then feeds the packet's status
    /// byte pair to the listener.  `Ok(None)` means the source is exhausted.
    /// Whatever packet arrived, the returned points are exactly the
    /// selection that packet's bytes dictate, and the listener advanced by
    /// exactly that packet's status pair.  A failure names its cause —
    /// the source's own error, or a rejected bank header — and poisons
    /// nothing: the listener and the calibration table stay as they were,
    /// so the next call starts clean.
    pub fn process_points(&mut self) -> (r: Result<
        Option<(PeerAddr, PacketMeta, Vec<ProjectedPoint>)>,
        ProcessError,
    >)
        requires
            old(self).wf(),
        ensures
            final (self).wf(),
            final (self).model() == old(self).model(),
            match r {
                Ok(Some(out)) => {
                    &&& final (self).remaining() < old(self).remaining()
                    &&& exists|d: Seq<u8>| #![auto]
                        d.len() == PACKET_SIZE && out.1 == spec_packet_meta(d) && (spec_project(
                            d,
                            old(self).model(),
                        ) matches Some(st) && out.2@ == st.out)
                    &&& forall|j: int|
                        0 <= j < out.2@.len() ==> (#[trigger] out.2@[j]).laser_id < 64 && (old(
                            self,
                        ).model() == SensorModel::Hdl32 ==> out.2@[j].laser_id < 32)
                    &&& old(self).model() == SensorModel::Hdl64 ==> {
                        let fr = spec_feed(
                            old(self).accum_view()->Some_0,
                            old(self).status_view()->Some_0,
                            old(self).listener_db_view()->Some_0,
                            out.1.status.id,
                            out.1.status.value,
                        );
                        &&& final (self).accum_view() == Some(fr.accum)
                        &&& final (self).status_view() == Some(fr.status)
                        &&& final (self).listener_db_view() == Some(fr.db)
                    }
                },
                Ok(None) => final (self).status_view() == old(self).status_view() && final (
                self).accum_view() == old(self).accum_view() && final (self).listener_db_view()
                    == old(self).listener_db_view() && final (self).calib_view() == old(
                    self,
                ).calib_view(),
                Err(e) => {
                    &&& (e matches ProcessError::Source(_) || e matches ProcessError::Conversion(
                        _,
                    ))
                    &&& final (self).status_view() == old(self).status_view()
                    &&& final (self).accum_view() == old(self).accum_view()
                    &&& final (self).listener_db_view() == old(self).listener_db_view()
                    &&& final (self).calib_view() == old(self).calib_view()
                    &&& e matches ProcessError::Conversion(_) ==> exists|d: Seq<u8>| #![auto]
                        d.len() == PACKET_SIZE && spec_project(d, old(self).model()) is None
                },
            },
    {
        let got = match self.packet_source.next_packet() {
            Ok(Some(v)) => v,
            Ok(None) => {
                return Ok(None);
            },
            Err(e) => {
                return Err(ProcessError::Source(e));
            },
        };
        let addr = got.0;
        let packet = got.1;
        let converted = match &self.decoder {
            Decoder::Hdl32(convertor) => convertor.convert(packet.as_slice()),
            Decoder::Hdl64 { convertor, .. } => convertor.convert(packet.as_slice()),
        };
        let (meta, points) = match converted {
            Ok(v) => v,
            Err(e) => {
                proof {
                    let d = packet@;
                    assert(d.len() == PACKET_SIZE && spec_project(d, old(self).model()) is None);
                }
                return Err(ProcessError::Conversion(e));
            },
        };
        match &mut self.decoder {
            Decoder::Hdl32(_) => {},
            Decoder::Hdl64 { listener, .. } => {
                listener.feed(meta.status);
            },
        }
        proof {
            let d = packet@;
            assert(d.len() == PACKET_SIZE && meta == spec_packet_meta(d) && (spec_project(
                d,
                old(self).model(),
            ) matches Some(st) && points@ == st.out));
        }
        Ok(Some((addr, meta, points)))
    }
}

} // verus!
