//! Point selection shared by the two sensor models.
//!
//! A datagram's firing blocks are walked in order.  Each block must carry a
//! bank header that the model knows; the bank decides the offset added to the
//! in-block laser position to form the global laser identifier.  The
//! double-return filter then runs over the surviving measurements: the sensor,
//! in dual-return mode, repeats a measurement in the next block at the same
//! azimuth when both returns coincide, and the repeated copy is suppressed
//! here.  What survives is handed out as [`ProjectedPoint`] records, the exact
//! integer inputs of the Cartesian projection.

use vstd::prelude::*;

use crate::packet::{
    le32, spec_block_azimuth, spec_block_header, spec_block_points, spec_block_points_upto,
    spec_packet_meta, spec_point_at, parse_packet, PacketMeta, RawPoint, BLOCKS, LASERS,
    PACKET_SIZE,
};
use crate::{ConversionError, ProjectedPoint};

verus! {

/// Which sensor family a datagram is decoded for.
#[derive(Copy, Clone, Debug, PartialEq, Eq, Structural)]
pub enum SensorModel {
    /// The 32-laser unit: a single bank, headed `0xFF 0xEE`.
    Hdl32,
    /// The 64-laser unit: upper bank `0xFF 0xEE`, lower bank `0xFF 0xDD`.
    Hdl64,
}

/// Number of entries in the double-return cache; one per global laser.
pub const CACHE_LASERS: usize = 64;

/// The azimuth value used as "no previous block yet".
pub const NO_PREV_AZIMUTH: u16 = 65535;

/// The global-laser offset selected by a bank header, if the model accepts
/// the header.
pub open spec fn spec_header_delta(model: SensorModel, h: (u8, u8)) -> Option<u8> {
    if h.0 == 0xff && h.1 == 0xee {
        Some(0u8)
    } else if model == SensorModel::Hdl64 && h.0 == 0xff && h.1 == 0xdd {
        Some(32u8)
    } else {
        None
    }
}

/// Running state of the selection: the points emitted so far and the
/// per-laser distance cache of the double-return filter.
pub ghost struct SelState {
    pub out: Seq<ProjectedPoint>,
    pub cache: Seq<u16>,
    pub prev_azimuth: u16,
}

/// The state before the first firing block: nothing emitted, cache zeroed,
/// no previous azimuth.
pub open spec fn spec_init_state() -> SelState {
    SelState {
        out: Seq::empty(),
        cache: Seq::new(CACHE_LASERS as nat, |i: int| 0u16),
        prev_azimuth: NO_PREV_AZIMUTH,
    }
}

/// One step of the double-return filter on a single measurement.
///
/// When the block repeats the previous block's azimuth (`same`) and the
/// laser's cached distance equals the current one, the point is suppressed
/// and its cache slot zeroed; otherwise the cache takes the new distance and
/// the point is emitted.
pub open spec fn spec_sel_step(
    p: RawPoint,
    delta: u8,
    azimuth: u16,
    ts: u32,
    same: bool,
    out: Seq<ProjectedPoint>,
    cache: Seq<u16>,
) -> (Seq<ProjectedPoint>, Seq<u16>) {
    let lid = p.laser + delta;
    if same && cache[lid as int] == p.distance {
        (out, cache.update(lid as int, 0u16))
    } else {
        (
            out.push(
                ProjectedPoint {
                    laser_id: lid as u8,
                    distance: p.distance,
                    intensity: p.intensity,
                    azimuth,
                    timestamp: ts,
                },
            ),
            cache.update(lid as int, p.distance),
        )
    }
}

/// The filter run over the first `n` measurements of a block.
pub open spec fn spec_sel_upto(
    pts: Seq<RawPoint>,
    n: int,
    delta: u8,
    azimuth: u16,
    ts: u32,
    same: bool,
    out0: Seq<ProjectedPoint>,
    cache0: Seq<u16>,
) -> (Seq<ProjectedPoint>, Seq<u16>)
    decreases n,
{
    if n <= 0 {
        (out0, cache0)
    } else {
        let (o, c) = spec_sel_upto(pts, n - 1, delta, azimuth, ts, same, out0, cache0);
        spec_sel_step(pts[n - 1], delta, azimuth, ts, same, o, c)
    }
}

/// The filter run over a whole block.
pub open spec fn spec_sel_block(
    pts: Seq<RawPoint>,
    delta: u8,
    azimuth: u16,
    ts: u32,
    same: bool,
    out0: Seq<ProjectedPoint>,
    cache0: Seq<u16>,
) -> (Seq<ProjectedPoint>, Seq<u16>) {
    spec_sel_upto(pts, pts.len() as int, delta, azimuth, ts, same, out0, cache0)
}

/// The selection applied to the first `n` firing blocks of datagram `d`.
/// `None` marks a bank header that the model rejects.
pub open spec fn spec_project_upto(d: Seq<u8>, model: SensorModel, n: int) -> Option<SelState>
    decreases n,
{
    if n <= 0 {
        Some(spec_init_state())
    } else {
        match spec_project_upto(d, model, n - 1) {
            Option::None => Option::None,
            Option::Some(st) => match spec_header_delta(model, spec_block_header(d, n - 1)) {
                Option::None => Option::None,
                Option::Some(delta) => {
                    let az = spec_block_azimuth(d, n - 1);
                    let sel = spec_sel_block(
                        spec_block_points(d, n - 1),
                        delta,
                        az,
                        le32(d, 1200),
                        az == st.prev_azimuth,
                        st.out,
                        st.cache,
                    );
                    Option::Some(SelState { out: sel.0, cache: sel.1, prev_azimuth: az })
                },
            },
        }
    }
}

/// The selection applied to a whole datagram.
pub open spec fn spec_project(d: Seq<u8>, model: SensorModel) -> Option<SelState> {
    spec_project_upto(d, model, BLOCKS as int)
}

/// The selection rejects a datagram exactly when one of its twelve bank
/// headers is unknown to the model.
pub proof fn lemma_project_none_iff_bad_header(d: Seq<u8>, model: SensorModel)
    ensures
        (spec_project(d, model) is None) == exists|b: int|
            0 <= b < BLOCKS && spec_header_delta(model, #[trigger] spec_block_header(d, b))
                is None,
{
    lemma_project_upto_none_iff_bad_header(d, model, BLOCKS as int);
}

proof fn lemma_project_upto_none_iff_bad_header(d: Seq<u8>, model: SensorModel, n: int)
    requires
        0 <= n,
    ensures
        (spec_project_upto(d, model, n) is None) == exists|b: int|
            0 <= b < n && spec_header_delta(model, #[trigger] spec_block_header(d, b)) is None,
    decreases n,
{
    if n > 0 {
        lemma_project_upto_none_iff_bad_header(d, model, n - 1);
        if spec_project_upto(d, model, n - 1) is None {
            let b = choose|b: int|
                0 <= b < n - 1 && spec_header_delta(model, #[trigger] spec_block_header(d, b))
                    is None;
            assert(spec_header_delta(model, spec_block_header(d, b)) is None);
        } else if spec_header_delta(model, spec_block_header(d, n - 1)) is None {
            assert(spec_project_upto(d, model, n) is None);
        }
    }
}

/// Once a bad bank header has been hit, the selection stays rejected.
pub proof fn lemma_project_none_propagates(d: Seq<u8>, model: SensorModel, k: int, m: int)
    requires
        k <= m,
        spec_project_upto(d, model, k) is None,
    ensures
        spec_project_upto(d, model, m) is None,
    decreases m - k,
{
    if k < m {
        lemma_project_none_propagates(d, model, k, m - 1);
    }
}

/// Project a datagram for `model`: validate every bank header, derive global
/// laser identifiers, run the double-return filter, and return the surviving
/// measurements in block-major, laser-minor order together with the packet's
/// meta record.  A datagram carrying any unknown bank header is rejected
/// whole.
pub fn project_packet(model: SensorModel, data: &[u8]) -> (r: Result<
    (PacketMeta, Vec<ProjectedPoint>),
    ConversionError,
>)
    requires
        data@.len() == PACKET_SIZE,
    ensures
        match r {
            Ok(res) => {
                &&& res.0 == spec_packet_meta(data@)
                &&& spec_project(data@, model) matches Some(st) && res.1@ == st.out
                &&& forall|j: int|
                    0 <= j < res.1@.len() ==> (#[trigger] res.1@[j]).laser_id < 64 && (model
                        == SensorModel::Hdl32 ==> res.1@[j].laser_id < 32)
            },
            Err(_) => spec_project(data@, model) is None,
        },
{
    let (meta, blocks) = parse_packet(data);
    let ts = meta.timestamp;

    let mut cache: Vec<u16> = Vec::new();
    let mut i: usize = 0;
    while i < CACHE_LASERS
        invariant
            i <= CACHE_LASERS,
            cache@.len() == i,
            forall|k: int| 0 <= k < i ==> cache@[k] == 0u16,
        decreases CACHE_LASERS - i,
    {
        cache.push(0u16);
        i = i + 1;
    }
    assert(cache@ =~= spec_init_state().cache);

    let mut out: Vec<ProjectedPoint> = Vec::new();
    let mut prev_azimuth: u16 = NO_PREV_AZIMUTH;

    let mut b: usize = 0;
    while b < BLOCKS
        invariant
            data@.len() == PACKET_SIZE,
            b <= BLOCKS,
            blocks@.len() == BLOCKS,
            forall|k: int|
                0 <= k < BLOCKS ==> {
                    &&& (#[trigger] blocks@[k]).header == spec_block_header(data@, k)
                    &&& blocks@[k].azimuth == spec_block_azimuth(data@, k)
                    &&& blocks@[k].points@ == spec_block_points(data@, k)
                },
            ts == le32(data@, 1200),
            cache@.len() == CACHE_LASERS,
            spec_project_upto(data@, model, b as int) == Some(
                SelState { out: out@, cache: cache@, prev_azimuth },
            ),
        decreases BLOCKS - b,
    {
        let header = blocks[b].header;
        let delta: u8 = if header.0 == 0xff && header.1 == 0xee {
            0
        } else if (match model {
            SensorModel::Hdl64 => true,
            SensorModel::Hdl32 => false,
        }) && header.0 == 0xff && header.1 == 0xdd {
            32
        } else {
            proof {
                assert(spec_header_delta(model, spec_block_header(data@, b as int)) is None);
                assert(spec_project_upto(data@, model, b as int + 1) is None);
                lemma_project_none_propagates(data@, model, b as int + 1, BLOCKS as int);
            }
            return Err(ConversionError);
        };
        let azimuth = blocks[b].azimuth;
        let same = azimuth == prev_azimuth;

        proof {
            crate::packet::lemma_block_points_lasers(data@, b as int, LASERS as int);
        }

        let ghost out0 = out@;
        let ghost cache0 = cache@;

        let n = blocks[b].points.len();
        let mut l: usize = 0;
        while l < n
            invariant
                data@.len() == PACKET_SIZE,
                b < BLOCKS,
                blocks@.len() == BLOCKS,
                blocks@[b as int].points@ == spec_block_points(data@, b as int),
                n == blocks@[b as int].points@.len(),
                l <= n,
                forall|j: int|
                    0 <= j < n ==> (#[trigger] blocks@[b as int].points@[j]).laser < LASERS,
                delta == 0 || delta == 32,
                cache0.len() == CACHE_LASERS,
                cache@.len() == CACHE_LASERS,
                (out@, cache@) == spec_sel_upto(
                    blocks@[b as int].points@,
                    l as int,
                    delta,
                    azimuth,
                    ts,
                    same,
                    out0,
                    cache0,
                ),
            decreases n - l,
        {
            let p = blocks[b].points[l];
            let lid = p.laser + delta;
            if same && cache[lid as usize] == p.distance {
                cache[lid as usize] = 0;
            } else {
                cache[lid as usize] = p.distance;
                out.push(
                    ProjectedPoint {
                        laser_id: lid,
                        distance: p.distance,
                        intensity: p.intensity,
                        azimuth,
                        timestamp: ts,
                    },
                );
            }
            l = l + 1;
        }
        prev_azimuth = azimuth;
        b = b + 1;
    }
    proof {
        lemma_project_fields(data@, model, BLOCKS as int);
    }
    Ok((meta, out))
}

/// Number of points in `s` carrying global laser identifier `lid`.
pub open spec fn spec_count_laser(s: Seq<ProjectedPoint>, lid: int) -> int
    decreases s.len(),
{
    if s.len() == 0 {
        0
    } else {
        spec_count_laser(s.drop_last(), lid) + if s.last().laser_id as int == lid {
            1int
        } else {
            0int
        }
    }
}

proof fn lemma_count_push(s: Seq<ProjectedPoint>, x: ProjectedPoint, lid: int)
    ensures
        spec_count_laser(s.push(x), lid) == spec_count_laser(s, lid) + if x.laser_id as int == lid {
            1int
        } else {
            0int
        },
{
    assert(s.push(x).drop_last() =~= s);
    assert(s.push(x).last() == x);
}

/// The distance recorded for laser slot `laser` among the first `n` points of
/// a parsed block, if any point came from that slot (the last one counts,
/// though a parsed block never repeats a slot).
pub open spec fn spec_find_slot(pts: Seq<RawPoint>, n: int, laser: int) -> Option<u16>
    decreases n,
{
    if n <= 0 {
        Option::None
    } else if pts[n - 1].laser as int == laser {
        Option::Some(pts[n - 1].distance)
    } else {
        spec_find_slot(pts, n - 1, laser)
    }
}

proof fn lemma_find_slot_absent(pts: Seq<RawPoint>, n: int, laser: int)
    requires
        forall|i: int| 0 <= i < n ==> (#[trigger] pts[i]).laser as int != laser,
    ensures
        spec_find_slot(pts, n, laser) is None,
    decreases n,
{
    if n > 0 {
        lemma_find_slot_absent(pts, n - 1, laser);
    }
}

proof fn lemma_find_slot_congruence(a: Seq<RawPoint>, c: Seq<RawPoint>, n: int, laser: int)
    requires
        forall|i: int| 0 <= i < n ==> a[i] == c[i],
    ensures
        spec_find_slot(a, n, laser) == spec_find_slot(c, n, laser),
    decreases n,
{
    if n > 0 {
        lemma_find_slot_congruence(a, c, n - 1, laser);
    }
}

/// On a parsed block, the slot lookup is exactly the raw slot distance, when
/// that distance is non-zero and the slot lies within range.
pub proof fn lemma_find_slot_block(d: Seq<u8>, b: int, n: int, laser: int)
    requires
        0 <= n <= LASERS,
    ensures
        spec_find_slot(
            spec_block_points_upto(d, b, n),
            spec_block_points_upto(d, b, n).len() as int,
            laser,
        ) == (if 0 <= laser < n && spec_point_at(d, b, laser).distance != 0 {
            Option::Some(spec_point_at(d, b, laser).distance)
        } else {
            Option::None
        }),
    decreases n,
{
    if n > 0 {
        lemma_find_slot_block(d, b, n - 1, laser);
        let prev = spec_block_points_upto(d, b, n - 1);
        let cur = spec_block_points_upto(d, b, n);
        let p = spec_point_at(d, b, n - 1);
        if p.distance != 0 {
            assert(cur == prev.push(p));
            assert(cur[cur.len() - 1] == p);
            assert(p.laser as int == n - 1);
            if laser != n - 1 {
                lemma_find_slot_congruence(cur, prev, prev.len() as int, laser);
            }
        } else {
            assert(cur == prev);
        }
    }
}

/// What one block of the filter does to laser `lid`: the cache slot and the
/// number of points carrying `lid` after the block, in terms of the slot
/// lookup and the state before the block.
pub open spec fn spec_slot_outcome(
    pts: Seq<RawPoint>,
    n: int,
    delta: u8,
    same: bool,
    out0: Seq<ProjectedPoint>,
    cache0: Seq<u16>,
    o: Seq<ProjectedPoint>,
    c: Seq<u16>,
    lid: int,
) -> bool {
    match spec_find_slot(pts, n, lid - delta) {
        Option::None => c[lid] == cache0[lid] && spec_count_laser(o, lid) == spec_count_laser(
            out0,
            lid,
        ),
        Option::Some(dd) => if same && cache0[lid] == dd {
            c[lid] == 0 && spec_count_laser(o, lid) == spec_count_laser(out0, lid)
        } else {
            c[lid] == dd && spec_count_laser(o, lid) == spec_count_laser(out0, lid) + 1
        },
    }
}

/// Exact per-laser behaviour of the filter on one block of well-formed
/// points: each laser slot present in the block either emits exactly one
/// point (and caches its distance) or, when the block repeats the previous
/// azimuth and the cached distance, emits nothing and zeroes its cache slot;
/// lasers absent from the block are untouched.
pub proof fn lemma_sel_upto_characterize(
    pts: Seq<RawPoint>,
    n: int,
    delta: u8,
    az: u16,
    ts: u32,
    same: bool,
    out0: Seq<ProjectedPoint>,
    cache0: Seq<u16>,
)
    requires
        0 <= n <= pts.len(),
        forall|i: int|
            0 <= i < pts.len() ==> (#[trigger] pts[i]).laser < 32 && pts[i].distance != 0,
        forall|i: int, j: int| 0 <= i < j < pts.len() ==> pts[i].laser < pts[j].laser,
        delta == 0 || delta == 32,
        cache0.len() == CACHE_LASERS,
    ensures
        ({
            let sel = spec_sel_upto(pts, n, delta, az, ts, same, out0, cache0);
            &&& sel.1.len() == CACHE_LASERS
            &&& forall|lid: int|
                0 <= lid < CACHE_LASERS ==> #[trigger] spec_slot_outcome(
                    pts,
                    n,
                    delta,
                    same,
                    out0,
                    cache0,
                    sel.0,
                    sel.1,
                    lid,
                )
        }),
    decreases n,
{
    if n == 0 {
        assert forall|lid: int| 0 <= lid < CACHE_LASERS implies #[trigger] spec_slot_outcome(
            pts,
            n,
            delta,
            same,
            out0,
            cache0,
            out0,
            cache0,
            lid,
        ) by {
            assert(spec_find_slot(pts, 0, lid - delta) is None);
        }
    } else {
        lemma_sel_upto_characterize(pts, n - 1, delta, az, ts, same, out0, cache0);
        let sel1 = spec_sel_upto(pts, n - 1, delta, az, ts, same, out0, cache0);
        let sel2 = spec_sel_upto(pts, n, delta, az, ts, same, out0, cache0);
        let p = pts[n - 1];
        let lam = p.laser as int;
        let lid0 = lam + delta;
        assert(spec_find_slot(pts, n, lam) == Option::Some(p.distance));
        assert(spec_find_slot(pts, n - 1, lam) is None) by {
            assert(forall|i: int| 0 <= i < n - 1 ==> (#[trigger] pts[i]).laser < p.laser);
            lemma_find_slot_absent(pts, n - 1, lam);
        }
        assert(sel2 == spec_sel_step(p, delta, az, ts, same, sel1.0, sel1.1));
        assert(spec_slot_outcome(pts, n - 1, delta, same, out0, cache0, sel1.0, sel1.1, lid0));
        assert forall|lid: int| 0 <= lid < CACHE_LASERS implies #[trigger] spec_slot_outcome(
            pts,
            n,
            delta,
            same,
            out0,
            cache0,
            sel2.0,
            sel2.1,
            lid,
        ) by {
            assert(spec_slot_outcome(pts, n - 1, delta, same, out0, cache0, sel1.0, sel1.1, lid));
            if lid == lid0 {
                // the current point's own laser: cache0 state decides
                if same && sel1.1[lid0] == p.distance {
                    assert(sel2.1[lid0] == 0);
                    assert(sel2.0 == sel1.0);
                } else {
                    lemma_count_push(
                        sel1.0,
                        ProjectedPoint {
                            laser_id: lid0 as u8,
                            distance: p.distance,
                            intensity: p.intensity,
                            azimuth: az,
                            timestamp: ts,
                        },
                        lid,
                    );
                }
            } else {
                // an unrelated laser: nothing changes for it
                assert(spec_find_slot(pts, n, lid - delta) == spec_find_slot(
                    pts,
                    n - 1,
                    lid - delta,
                ));
                assert(sel2.1[lid] == sel1.1[lid]);
                if !(same && sel1.1[lid0] == p.distance) {
                    lemma_count_push(
                        sel1.0,
                        ProjectedPoint {
                            laser_id: lid0 as u8,
                            distance: p.distance,
                            intensity: p.intensity,
                            azimuth: az,
                            timestamp: ts,
                        },
                        lid,
                    );
                }
            }
        }
    }
}

/// The filter only appends: the points already emitted stay, and every point
/// a block adds carries that block's azimuth, the packet timestamp, and a
/// global laser identifier within the bank selected by `delta`.
pub proof fn lemma_sel_upto_fields(
    pts: Seq<RawPoint>,
    n: int,
    delta: u8,
    az: u16,
    ts: u32,
    same: bool,
    out0: Seq<ProjectedPoint>,
    cache0: Seq<u16>,
)
    requires
        0 <= n <= pts.len(),
        forall|i: int| 0 <= i < pts.len() ==> (#[trigger] pts[i]).laser < 32,
        delta == 0 || delta == 32,
        cache0.len() == CACHE_LASERS,
    ensures
        ({
            let sel = spec_sel_upto(pts, n, delta, az, ts, same, out0, cache0);
            &&& sel.1.len() == CACHE_LASERS
            &&& sel.0.len() >= out0.len()
            &&& forall|j: int| 0 <= j < out0.len() ==> sel.0[j] == out0[j]
            &&& forall|j: int|
                out0.len() <= j < sel.0.len() ==> delta <= (#[trigger] sel.0[j]).laser_id < delta
                    + 32 && sel.0[j].azimuth == az && sel.0[j].timestamp == ts
        }),
    decreases n,
{
    if n > 0 {
        lemma_sel_upto_fields(pts, n - 1, delta, az, ts, same, out0, cache0);
    }
}

/// Every point the selection emits lies within the model's laser range:
/// below 64 for the two-bank unit, below 32 for the single-bank unit.  The
/// cache keeps its fixed size throughout.
pub proof fn lemma_project_fields(d: Seq<u8>, model: SensorModel, n: int)
    requires
        0 <= n <= BLOCKS,
    ensures
        spec_project_upto(d, model, n) matches Some(st) ==> st.cache.len() == CACHE_LASERS
            && forall|j: int|
            0 <= j < st.out.len() ==> (#[trigger] st.out[j]).laser_id < 64 && (model
                == SensorModel::Hdl32 ==> st.out[j].laser_id < 32),
    decreases n,
{
    if n > 0 {
        lemma_project_fields(d, model, n - 1);
        if spec_project_upto(d, model, n) is Some {
            assert(spec_project_upto(d, model, n - 1) is Some);
            let st = spec_project_upto(d, model, n - 1)->Some_0;
            let delta = spec_header_delta(model, spec_block_header(d, n - 1))->Some_0;
            assert(delta == 0 || delta == 32);
            assert(model == SensorModel::Hdl32 ==> delta == 0);
            let pts = spec_block_points(d, n - 1);
            let az = spec_block_azimuth(d, n - 1);
            let ts = le32(d, 1200);
            let same = az == st.prev_azimuth;
            crate::packet::lemma_block_points_lasers(d, n - 1, LASERS as int);
            lemma_sel_upto_fields(pts, pts.len() as int, delta, az, ts, same, st.out, st.cache);
            let sel = spec_sel_block(pts, delta, az, ts, same, st.out, st.cache);
            let cur = spec_project_upto(d, model, n)->Some_0;
            assert(cur == SelState { out: sel.0, cache: sel.1, prev_azimuth: az });
            assert forall|j: int| 0 <= j < cur.out.len() implies (#[trigger] cur.out[j]).laser_id
                < 64 && (model == SensorModel::Hdl32 ==> cur.out[j].laser_id < 32) by {
                if j < st.out.len() {
                    assert(cur.out[j] == st.out[j]);
                } else {
                    assert(delta <= cur.out[j].laser_id < delta + 32);
                }
            }
        }
    }
}

/// Double-return law for one pair of blocks: if two block point lists record
/// the same distance for every laser slot, and the second block repeats the
/// first's azimuth, then across the pair the filter emits at most one point
/// per laser, whatever state it started in.
pub proof fn lemma_double_return_blocks(
    pts1: Seq<RawPoint>,
    pts2: Seq<RawPoint>,
    delta: u8,
    az: u16,
    ts: u32,
    same1: bool,
    out0: Seq<ProjectedPoint>,
    cache0: Seq<u16>,
    lid: int,
)
    requires
        forall|i: int|
            0 <= i < pts1.len() ==> (#[trigger] pts1[i]).laser < 32 && pts1[i].distance != 0,
        forall|i: int, j: int| 0 <= i < j < pts1.len() ==> pts1[i].laser < pts1[j].laser,
        forall|i: int|
            0 <= i < pts2.len() ==> (#[trigger] pts2[i]).laser < 32 && pts2[i].distance != 0,
        forall|i: int, j: int| 0 <= i < j < pts2.len() ==> pts2[i].laser < pts2[j].laser,
        forall|laser: int| #![auto]
            spec_find_slot(pts1, pts1.len() as int, laser) == spec_find_slot(
                pts2,
                pts2.len() as int,
                laser,
            ),
        delta == 0 || delta == 32,
        cache0.len() == CACHE_LASERS,
        0 <= lid < CACHE_LASERS,
    ensures
        ({
            let first = spec_sel_block(pts1, delta, az, ts, same1, out0, cache0);
            let second = spec_sel_block(pts2, delta, az, ts, true, first.0, first.1);
            spec_count_laser(second.0, lid) <= spec_count_laser(out0, lid) + 1
        }),
{
    let first = spec_sel_block(pts1, delta, az, ts, same1, out0, cache0);
    let second = spec_sel_block(pts2, delta, az, ts, true, first.0, first.1);
    lemma_sel_upto_characterize(pts1, pts1.len() as int, delta, az, ts, same1, out0, cache0);
    lemma_sel_upto_characterize(pts2, pts2.len() as int, delta, az, ts, true, first.0, first.1);
    assert(spec_slot_outcome(pts1, pts1.len() as int, delta, same1, out0, cache0, first.0, first.1, lid));
    assert(spec_slot_outcome(pts2, pts2.len() as int, delta, true, first.0, first.1, second.0, second.1, lid));
}

/// Double-return law on a whole datagram: when firing blocks `b` and `b + 1`
/// carry the same azimuth and the same distance in every laser slot, the
/// points those two blocks contribute include at most one per laser.
pub proof fn lemma_double_return_packet(d: Seq<u8>, model: SensorModel, b: int, lid: int)
    requires
        0 <= b,
        b + 2 <= BLOCKS,
        spec_block_azimuth(d, b) == spec_block_azimuth(d, b + 1),
        forall|l: int|
            0 <= l < LASERS ==> (#[trigger] spec_point_at(d, b, l)).distance == spec_point_at(
                d,
                b + 1,
                l,
            ).distance,
        0 <= lid < CACHE_LASERS,
        spec_project_upto(d, model, b + 2) is Some,
    ensures
        ({
            let st0 = spec_project_upto(d, model, b)->Some_0;
            let st2 = spec_project_upto(d, model, b + 2)->Some_0;
            spec_count_laser(st2.out, lid) <= spec_count_laser(st0.out, lid) + 1
        }),
{
    let st0 = spec_project_upto(d, model, b)->Some_0;
    let st1 = spec_project_upto(d, model, b + 1)->Some_0;
    let st2 = spec_project_upto(d, model, b + 2)->Some_0;
    let pts1 = spec_block_points(d, b);
    let pts2 = spec_block_points(d, b + 1);
    let delta = spec_header_delta(model, spec_block_header(d, b))->Some_0;
    let delta2 = spec_header_delta(model, spec_block_header(d, b + 1))->Some_0;
    let az = spec_block_azimuth(d, b);
    let ts = le32(d, 1200);
    crate::packet::lemma_block_points_lasers(d, b, LASERS as int);
    crate::packet::lemma_block_points_lasers(d, b + 1, LASERS as int);
    lemma_project_fields(d, model, b);
    assert forall|laser: int| #![auto]
        spec_find_slot(pts1, pts1.len() as int, laser) == spec_find_slot(
            pts2,
            pts2.len() as int,
            laser,
        ) by {
        lemma_find_slot_block(d, b, LASERS as int, laser);
        lemma_find_slot_block(d, b + 1, LASERS as int, laser);
    }
    // the two banks must agree: both headers map through the same delta for
    // the pair law to compose, which the state threading gives us directly
    if delta == delta2 {
        let first = spec_sel_block(pts1, delta, az, ts, az == st0.prev_azimuth, st0.out, st0.cache);
        assert(st1.out == first.0 && st1.cache == first.1 && st1.prev_azimuth == az);
        lemma_double_return_blocks(
            pts1,
            pts2,
            delta,
            az,
            ts,
            az == st0.prev_azimuth,
            st0.out,
            st0.cache,
            lid,
        );
        assert(st2.out == spec_sel_block(pts2, delta, az, ts, true, first.0, first.1).0);
    } else {
        lemma_sel_upto_characterize(
            pts1,
            pts1.len() as int,
            delta,
            az,
            ts,
            az == st0.prev_azimuth,
            st0.out,
            st0.cache,
        );
        lemma_sel_upto_characterize(
            pts2,
            pts2.len() as int,
            delta2,
            az,
            ts,
            true,
            st1.out,
            st1.cache,
        );
        assert(spec_slot_outcome(
            pts1,
            pts1.len() as int,
            delta,
            az == st0.prev_azimuth,
            st0.out,
            st0.cache,
            st1.out,
            st1.cache,
            lid,
        ));
        assert(spec_slot_outcome(
            pts2,
            pts2.len() as int,
            delta2,
            true,
            st1.out,
            st1.cache,
            st2.out,
            st2.cache,
            lid,
        ));
        // the two banks are distinct here, so only one of them can own `lid`
        lemma_find_slot_block(d, b, LASERS as int, lid - delta);
        lemma_find_slot_block(d, b + 1, LASERS as int, lid - delta2);
    }
}

} // verus!
