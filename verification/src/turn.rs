//! Grouping the point stream into full sensor rotations.
//!
//! The segmenter watches the per-packet azimuth and cuts the stream whenever
//! the sweep from the previous packet's azimuth to the current one passes a
//! configurable split line (hundredths of a degree, modulo 36000).  Packets
//! are assumed never to repeat an azimuth in normal operation.  A turn is
//! the in-order concatenation of the consumed packets' selections; nothing
//! is reordered.

use vstd::prelude::*;

use crate::hdl64::calib::{CalibDb, LaserCalib};
use crate::hdl64::status_accum::{spec_feed, AccumModel, FeedResult};
use crate::hdl64::status_types::Status;
use crate::packet::{spec_packet_meta, PacketSource, PACKET_SIZE};
use crate::project::{spec_project, SensorModel};
use crate::source::PointSource;
use crate::{ProcessError, ProjectedPoint};

verus! {

/// The crossing test of the segmenter, exactly as evaluated per packet:
/// on a wrap (`prev > curr`) a turn completes unless the split line sits in
/// the unswept gap; otherwise a turn completes when the sweep reached the
/// split line.
pub open spec fn spec_crossed(prev: u16, curr: u16, split: u16) -> bool {
    if prev > curr {
        !(prev >= split && split > curr)
    } else {
        curr >= split && split > prev
    }
}

/// The half-open azimuth arc from `prev` (exclusive) to `curr` (inclusive),
/// swept forward through the wrap, contains `s`.
pub open spec fn spec_arc_contains(prev: u16, curr: u16, s: u16) -> bool {
    if prev < curr {
        prev < s <= curr
    } else {
        s > prev || s <= curr
    }
}

/// The crossing test fires exactly when the split line lies on the arc the
/// sensor swept since the previous packet.
pub proof fn lemma_crossed_iff_arc(prev: u16, curr: u16, split: u16)
    requires
        prev != curr,
    ensures
        spec_crossed(prev, curr, split) == spec_arc_contains(prev, curr, split),
{
}

/// With split 0, a turn completes exactly when the azimuth wraps past zero.
pub proof fn lemma_split_zero_cuts_on_wrap(prev: u16, curr: u16)
    ensures
        spec_crossed(prev, curr, 0) == (prev > curr),
{
}

/// With split 18000, a turn completes exactly when the sweep passes the
/// 180-degree line: forward across it, or on a wrap that does not stop
/// short of it.
pub proof fn lemma_split_half_turn(prev: u16, curr: u16)
    requires
        prev != curr,
    ensures
        spec_crossed(prev, curr, 18000) == (if prev < curr {
            prev < 18000 <= curr
        } else {
            18000 > prev || 18000 <= curr
        }),
{
}

/// Reducing a split azimuth modulo the full circle is idempotent, so setting
/// the same split twice leaves the segmenter exactly where one set left it.
pub proof fn lemma_split_normalisation_idempotent(v: u16)
    ensures
        (v % 36000) % 36000 == v % 36000,
{
}

/// The crossing test.
fn crossed(prev: u16, curr: u16, split: u16) -> (r: bool)
    ensures
        r == spec_crossed(prev, curr, split),
{
    if prev > curr {
        !(prev >= split && split > curr)
    } else {
        curr >= split && split > prev
    }
}

/// The points one accepted datagram's selection yields.
pub open spec fn spec_selection(d: Seq<u8>, model: SensorModel) -> Seq<ProjectedPoint> {
    spec_project(d, model)->Some_0.out
}

/// The points a run of datagrams yields, in arrival order.
pub open spec fn spec_turn_points(ds: Seq<Seq<u8>>, model: SensorModel) -> Seq<ProjectedPoint>
    decreases ds.len(),
{
    if ds.len() == 0 {
        Seq::empty()
    } else {
        spec_turn_points(ds.drop_last(), model) + spec_selection(ds.last(), model)
    }
}

/// The azimuth the crossing test compares packet `i` of a run against: the
/// previous packet's azimuth, or `p0` for the first packet.
pub open spec fn spec_prev_azimuth(ds: Seq<Seq<u8>>, p0: u16, i: int) -> u16 {
    if i == 0 {
        p0
    } else {
        spec_packet_meta(ds[i - 1]).azimuth
    }
}

/// A run of datagrams, every one of which the model accepts.
pub open spec fn spec_run_ok(ds: Seq<Seq<u8>>, model: SensorModel) -> bool {
    forall|i: int|
        0 <= i < ds.len() ==> (#[trigger] ds[i]).len() == PACKET_SIZE && spec_project(
            ds[i],
            model,
        ) is Some
}

/// No packet of the run crosses the split line, starting from `p0`.
pub open spec fn spec_no_crossing(ds: Seq<Seq<u8>>, p0: u16, split: u16) -> bool {
    forall|i: int|
        0 <= i < ds.len() ==> !spec_crossed(
            spec_prev_azimuth(ds, p0, i),
            spec_packet_meta(#[trigger] ds[i]).azimuth,
            split,
        )
}

/// The 64-laser listener state after feeding the status pairs of a run.
pub open spec fn spec_feed_run(
    a: AccumModel,
    st: Status,
    db: Seq<LaserCalib>,
    ds: Seq<Seq<u8>>,
) -> FeedResult
    decreases ds.len(),
{
    if ds.len() == 0 {
        FeedResult { accum: a, status: st, db }
    } else {
        let prev = spec_feed_run(a, st, db, ds.drop_last());
        spec_feed(
            prev.accum,
            prev.status,
            prev.db,
            spec_packet_meta(ds.last()).status.id,
            spec_packet_meta(ds.last()).status.value,
        )
    }
}

/// One completed turn over the run `ds`, cut from previous azimuth `p0` at
/// split line `split`: every datagram accepted, no crossing before the last
/// packet, a crossing at the last, and the buffer the in-order
/// concatenation of the run's selections.
pub open spec fn spec_turn_cut(
    ds: Seq<Seq<u8>>,
    model: SensorModel,
    p0: u16,
    split: u16,
    buf: Seq<ProjectedPoint>,
) -> bool {
    &&& ds.len() > 0
    &&& spec_run_ok(ds, model)
    &&& spec_no_crossing(ds.drop_last(), p0, split)
    &&& spec_crossed(
        spec_prev_azimuth(ds, p0, ds.len() - 1),
        spec_packet_meta(ds.last()).azimuth,
        split,
    )
    &&& buf == spec_turn_points(ds, model)
}

/// Yields the points of one full sensor rotation at a time.
pub struct TurnIterator<T: PacketSource> {
    point_source: PointSource<T>,
    cap: usize,
    prev_azimuth: u16,
    split_azimuth: u16,
}

impl<T: PacketSource> TurnIterator<T> {
    /// Which sensor model this segmenter decodes for.
    pub closed spec fn model(&self) -> SensorModel {
        self.point_source.model()
    }

    /// The split line, hundredths of a degree below 36000.
    pub closed spec fn split(&self) -> u16 {
        self.split_azimuth
    }

    /// The azimuth of the last packet processed.
    pub closed spec fn prev_azimuth(&self) -> u16 {
        self.prev_azimuth
    }

    /// The status reconstructed so far; nothing for the 32-laser unit.
    pub closed spec fn status_view(&self) -> Option<Status> {
        self.point_source.status_view()
    }

    /// The 64-laser listener's accumulator state.
    pub closed spec fn accum_view(&self) -> Option<AccumModel> {
        self.point_source.accum_view()
    }

    /// The 64-laser listener's calibration table.
    pub closed spec fn listener_db_view(&self) -> Option<Seq<LaserCalib>> {
        self.point_source.listener_db_view()
    }

    /// The segmenter advanced by exactly the run `ds`: the previous azimuth
    /// is the run's last (unchanged for an empty run), and for the 64-laser
    /// unit the listener consumed exactly the run's status pairs.
    pub open spec fn spec_advanced_by(self, ds: Seq<Seq<u8>>, after: TurnIterator<T>) -> bool {
        &&& after.prev_azimuth() == (if ds.len() == 0 {
            self.prev_azimuth()
        } else {
            spec_packet_meta(ds.last()).azimuth
        })
        &&& self.model() == SensorModel::Hdl64 ==> {
            let fr = spec_feed_run(
                self.accum_view()->Some_0,
                self.status_view()->Some_0,
                self.listener_db_view()->Some_0,
                ds,
            );
            &&& after.accum_view() == Some(fr.accum)
            &&& after.status_view() == Some(fr.status)
            &&& after.listener_db_view() == Some(fr.db)
        }
    }

    /// Well-formed when the underlying source is and the split line is
    /// normalised.
    pub closed spec fn wf(&self) -> bool {
        self.point_source.wf() && self.split_azimuth < 36000
    }

    /// Wrap a point source; the split line starts at zero.
    pub fn new(point_source: PointSource<T>) -> (r: TurnIterator<T>)
        requires
            point_source.wf(),
        ensures
            r.wf(),
            r.model() == point_source.model(),
            r.split() == 0,
    {
        TurnIterator { point_source, cap: 0, prev_azimuth: 0, split_azimuth: 0 }
    }

    /// Initialise a segmenter for the 64-laser unit.
    pub fn hdl64_init(packet_source: T) -> (r: Result<TurnIterator<T>, ProcessError>)
        ensures
            match r {
                Ok(t) => t.wf() && t.model() == SensorModel::Hdl64 && t.split() == 0,
                Err(e) => e == ProcessError::InitTimeout || e == ProcessError::SourceExhausted
                    || e matches ProcessError::Source(_),
            },
    {
        let point_source = match PointSource::hdl64_init(packet_source) {
            Ok(s) => s,
            Err(e) => {
                return Err(e);
            },
        };
        Ok(TurnIterator { point_source, cap: 0, prev_azimuth: 0, split_azimuth: 0 })
    }

    /// Initialise a segmenter for the 32-laser unit.
    pub fn hdl32_init(packet_source: T) -> (r: TurnIterator<T>)
        ensures
            r.wf(),
            r.model() == SensorModel::Hdl32,
            r.split() == 0,
    {
        let point_source = PointSource::hdl32_init(packet_source);
        TurnIterator { point_source, cap: 0, prev_azimuth: 0, split_azimuth: 0 }
    }

    /// Set the azimuth at which the next turn will begin, in hundredths of
    /// a degree; any value is reduced modulo the full circle.
    pub fn set_split_azimuth(&mut self, val: u16)
        requires
            old(self).wf(),
        ensures
            final (self).wf(),
            final (self).split() == val % 36000,
            final (self).model() == old(self).model(),
    {
        self.split_azimuth = val % 36000;
    }

    /// Replace the 64-laser calibration table.
    pub fn hdl64_set_calib_db(&mut self, calib_db: CalibDb)
        requires
            old(self).wf(),
        ensures
            final (self).wf(),
            final (self).model() == old(self).model(),
            final (self).split() == old(self).split(),
    {
        self.point_source.hdl64_set_calib_db(calib_db);
    }

    /// Drain packets until the azimuth sweep crosses the split line, then
    /// yield the accumulated points and a snapshot of the current status.
    ///
    /// On `Some(Ok(..))` there is a run of consumed packets of which only
    /// the last crossed the split line; the buffer is the in-order
    /// concatenation of their selections, the status is the listener's
    /// state after their status pairs (nothing for the 32-laser unit), and
    /// every point lies in the model's laser range.  `None` means the
    /// source was exhausted after a (possibly empty) crossing-free run;
    /// `Some(Err(..))` carries a source or conversion failure after such a
    /// run.  In the latter two cases the points gathered so far are
    /// discarded, and the segmenter advanced only by the packets it
    /// consumed whole: it stays usable.
    pub fn next_turn(&mut self) -> (r: Option<
        Result<(Option<Status>, Vec<ProjectedPoint>), ProcessError>,
    >)
        requires
            old(self).wf(),
        ensures
            final (self).wf(),
            final (self).model() == old(self).model(),
            final (self).split() == old(self).split(),
            match r {
                Some(res) => match res {
                    Ok(turn) => {
                        &&& (turn.0 is Some <==> old(self).model() == SensorModel::Hdl64)
                        &&& (turn.0 matches Some(st) ==> st.wf())
                        &&& turn.0 == final (self).status_view()
                        &&& forall|j: int|
                            0 <= j < turn.1@.len() ==> (#[trigger] turn.1@[j]).laser_id < 64 && (
                            old(self).model() == SensorModel::Hdl32 ==> turn.1@[j].laser_id < 32)
                        &&& exists|ds: Seq<Seq<u8>>|
                            #[trigger] old(self).spec_advanced_by(ds, *final (self))
                                && spec_turn_cut(
                                ds,
                                old(self).model(),
                                old(self).prev_azimuth(),
                                old(self).split(),
                                turn.1@,
                            )
                    },
                    Err(e) => {
                        &&& (e matches ProcessError::Source(_) || e
                            matches ProcessError::Conversion(_))
                        &&& (e matches ProcessError::Conversion(_) ==> exists|d: Seq<u8>| #![auto]
                            d.len() == PACKET_SIZE && spec_project(d, old(self).model()) is None)
                        &&& exists|ds: Seq<Seq<u8>>|
                            #[trigger] old(self).spec_advanced_by(ds, *final (self))
                                && spec_run_ok(ds, old(self).model()) && spec_no_crossing(
                                ds,
                                old(self).prev_azimuth(),
                                old(self).split(),
                            )
                    },
                },
                None => exists|ds: Seq<Seq<u8>>|
                    #[trigger] old(self).spec_advanced_by(ds, *final (self)) && spec_run_ok(
                        ds,
                        old(self).model(),
                    ) && spec_no_crossing(ds, old(self).prev_azimuth(), old(self).split()),
            },
    {
        let ghost model0 = old(self).model();
        let ghost p0 = self.prev_azimuth;
        let ghost split0 = self.split_azimuth;
        let ghost av0 = self.point_source.accum_view();
        let ghost sv0 = self.point_source.status_view();
        let ghost dv0 = self.point_source.listener_db_view();
        let ghost mut ds: Seq<Seq<u8>> = Seq::empty();
        proof {
            self.point_source.lemma_views_match_model();
        }
        let mut buf: Vec<ProjectedPoint> = Vec::with_capacity(self.cap);
        loop
            invariant_except_break
                spec_no_crossing(ds, p0, split0),
                self.prev_azimuth == spec_prev_azimuth(ds, p0, ds.len() as int),
            invariant
                self.point_source.wf(),
                self.point_source.model() == model0,
                model0 == old(self).model(),
                self.split_azimuth == split0,
                split0 == old(self).split_azimuth,
                split0 < 36000,
                p0 == old(self).prev_azimuth,
                av0 == old(self).point_source.accum_view(),
                sv0 == old(self).point_source.status_view(),
                dv0 == old(self).point_source.listener_db_view(),
                spec_run_ok(ds, model0),
                buf@ == spec_turn_points(ds, model0),
                forall|j: int|
                    0 <= j < buf@.len() ==> (#[trigger] buf@[j]).laser_id < 64 && (model0
                        == SensorModel::Hdl32 ==> buf@[j].laser_id < 32),
                model0 == SensorModel::Hdl64 ==> ({
                    let fr = spec_feed_run(av0->Some_0, sv0->Some_0, dv0->Some_0, ds);
                    &&& self.point_source.accum_view() == Some(fr.accum)
                    &&& self.point_source.status_view() == Some(fr.status)
                    &&& self.point_source.listener_db_view() == Some(fr.db)
                }),
            ensures
                self.point_source.wf(),
                self.point_source.model() == model0,
                self.split_azimuth == split0,
                spec_turn_cut(ds, model0, p0, split0, buf@),
                self.prev_azimuth == spec_packet_meta(ds.last()).azimuth,
                forall|j: int|
                    0 <= j < buf@.len() ==> (#[trigger] buf@[j]).laser_id < 64 && (model0
                        == SensorModel::Hdl32 ==> buf@[j].laser_id < 32),
                model0 == SensorModel::Hdl64 ==> ({
                    let fr = spec_feed_run(av0->Some_0, sv0->Some_0, dv0->Some_0, ds);
                    &&& self.point_source.accum_view() == Some(fr.accum)
                    &&& self.point_source.status_view() == Some(fr.status)
                    &&& self.point_source.listener_db_view() == Some(fr.db)
                }),
            decreases self.point_source.remaining(),
        {
            let step = self.point_source.process_points();
            let out = match step {
                Ok(Some(v)) => v,
                Ok(None) => {
                    proof {
                        assert(old(self).spec_advanced_by(ds, *self));
                    }
                    return None;
                },
                Err(e) => {
                    proof {
                        assert(old(self).spec_advanced_by(ds, *self));
                    }
                    return Some(Err(e));
                },
            };
            let meta = out.1;
            let mut pts = out.2;
            let ghost pts0 = pts@;
            proof {
                assert(exists|dd: Seq<u8>| #![auto]
                    dd.len() == PACKET_SIZE && meta == spec_packet_meta(dd) && (spec_project(
                        dd,
                        model0,
                    ) matches Some(st) && pts0 == st.out));
            }
            let ghost d = choose|dd: Seq<u8>| #![auto]
                dd.len() == PACKET_SIZE && meta == spec_packet_meta(dd) && (spec_project(
                    dd,
                    model0,
                ) matches Some(st) && pts0 == st.out);
            buf.append(&mut pts);
            let azimuth = meta.azimuth;
            let flag = crossed(self.prev_azimuth, azimuth, self.split_azimuth);
            proof {
                let ds2 = ds.push(d);
                assert(ds2.drop_last() =~= ds);
                assert(ds2.last() == d);
                assert(spec_selection(d, model0) == pts0);
                assert(buf@ == spec_turn_points(ds2, model0));
                assert forall|i: int| 0 <= i < ds2.len() implies (#[trigger] ds2[i]).len()
                    == PACKET_SIZE && spec_project(ds2[i], model0) is Some by {
                    if i < ds.len() {
                        assert(ds2[i] == ds[i]);
                        assert(ds[i].len() == PACKET_SIZE && spec_project(ds[i], model0) is Some);
                    } else {
                        assert(ds2[i] == d);
                    }
                }
                assert(spec_prev_azimuth(ds2, p0, ds.len() as int) == self.prev_azimuth);
                if !flag {
                    assert forall|i: int| 0 <= i < ds2.len() implies !spec_crossed(
                        spec_prev_azimuth(ds2, p0, i),
                        spec_packet_meta(#[trigger] ds2[i]).azimuth,
                        split0,
                    ) by {
                        if i < ds.len() {
                            assert(ds2[i] == ds[i]);
                            if i > 0 {
                                assert(ds2[i - 1] == ds[i - 1]);
                            }
                            assert(spec_prev_azimuth(ds2, p0, i) == spec_prev_azimuth(ds, p0, i));
                            assert(!spec_crossed(
                                spec_prev_azimuth(ds, p0, i),
                                spec_packet_meta(ds[i]).azimuth,
                                split0,
                            ));
                        } else {
                            assert(ds2[i] == d);
                        }
                    }
                }
                if model0 == SensorModel::Hdl64 {
                    let fr_prev = spec_feed_run(av0->Some_0, sv0->Some_0, dv0->Some_0, ds);
                    assert(spec_feed_run(av0->Some_0, sv0->Some_0, dv0->Some_0, ds2) == spec_feed(
                        fr_prev.accum,
                        fr_prev.status,
                        fr_prev.db,
                        spec_packet_meta(d).status.id,
                        spec_packet_meta(d).status.value,
                    ));
                }
                ds = ds2;
            }
            self.prev_azimuth = azimuth;
            if flag {
                break ;
            }
        }
        // grow the buffer estimate by a tenth of this turn, saturating
        let grow = buf.len() / 10;
        let target = if buf.len() <= usize::MAX - grow {
            buf.len() + grow
        } else {
            usize::MAX
        };
        if target > self.cap {
            self.cap = target;
        }
        let status = match self.point_source.get_status() {
            Some(st) => Some(*st),
            None => None,
        };
        proof {
            assert(old(self).spec_advanced_by(ds, *self));
            assert(spec_turn_cut(ds, model0, p0, split0, buf@));
        }
        Some(Ok((status, buf)))
    }
}

} // verus!
