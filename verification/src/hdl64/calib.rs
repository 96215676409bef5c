//! The 64-laser sensor's intrinsic calibration table, in raw integer units.
//!
//! The sensor transmits one 21-byte record per laser.  The records are kept
//! here exactly as decoded from the wire: angles in hundredths of a degree
//! and lengths in tenths of a centimetre, both as signed 16-bit counts.  The
//! floating-point consumer divides by 100 or 10 and takes sines and cosines;
//! none of that changes what the table says.

use vstd::prelude::*;

verus! {

/// Per-laser calibration record, raw wire units.
///
/// `vert_corr` and `rot_corr` are hundredths of a degree; the distance
/// corrections, offsets and focal distance are tenths of a centimetre; the
/// focal slope is tenths of its unit quantity.
#[derive(Copy, Clone, Debug, PartialEq, Eq, Structural, Default)]
pub struct LaserCalib {
    pub min_intensity: u8,
    pub max_intensity: u8,
    pub vert_corr: i16,
    pub rot_corr: i16,
    pub dist_correction: i16,
    pub dist_corr_x: i16,
    pub dist_corr_y: i16,
    pub vert_offset: i16,
    pub horiz_offset: i16,
    pub focal_dist: i16,
    pub focal_slope: i16,
}

/// The all-zero calibration record.
pub open spec fn spec_zero_laser() -> LaserCalib {
    LaserCalib {
        min_intensity: 0,
        max_intensity: 0,
        vert_corr: 0,
        rot_corr: 0,
        dist_correction: 0,
        dist_corr_x: 0,
        dist_corr_y: 0,
        vert_offset: 0,
        horiz_offset: 0,
        focal_dist: 0,
        focal_slope: 0,
    }
}

/// Number of lasers of the 64-laser unit.
pub const LASER_COUNT: usize = 64;

/// Sensor calibration data: one raw record per global laser.
#[derive(Debug)]
pub struct CalibDb {
    pub lasers: Vec<LaserCalib>,
}

impl View for CalibDb {
    type V = Seq<LaserCalib>;

    open spec fn view(&self) -> Seq<LaserCalib> {
        self.lasers@
    }
}

impl CalibDb {
    /// A calibration table always holds exactly one record per laser.
    pub open spec fn wf(&self) -> bool {
        self@.len() == LASER_COUNT
    }

    /// An all-zero table, the state before any calibration data arrived.
    pub fn new() -> (r: CalibDb)
        ensures
            r.wf(),
            forall|i: int| 0 <= i < LASER_COUNT ==> r@[i] == spec_zero_laser(),
    {
        let mut lasers: Vec<LaserCalib> = Vec::new();
        let mut i: usize = 0;
        while i < LASER_COUNT
            invariant
                i <= LASER_COUNT,
                lasers@.len() == i,
                forall|k: int| 0 <= k < i ==> lasers@[k] == spec_zero_laser(),
            decreases LASER_COUNT - i,
        {
            lasers.push(
                LaserCalib {
                    min_intensity: 0,
                    max_intensity: 0,
                    vert_corr: 0,
                    rot_corr: 0,
                    dist_correction: 0,
                    dist_corr_x: 0,
                    dist_corr_y: 0,
                    vert_offset: 0,
                    horiz_offset: 0,
                    focal_dist: 0,
                    focal_slope: 0,
                },
            );
            i = i + 1;
        }
        CalibDb { lasers }
    }

    /// An exact copy of the table.
    pub fn duplicate(&self) -> (r: CalibDb)
        ensures
            r@ == self@,
    {
        let mut lasers: Vec<LaserCalib> = Vec::new();
        let mut i: usize = 0;
        while i < self.lasers.len()
            invariant
                i <= self.lasers@.len(),
                lasers@.len() == i,
                forall|k: int| 0 <= k < i ==> lasers@[k] == self.lasers@[k],
            decreases self.lasers@.len() - i,
        {
            lasers.push(self.lasers[i]);
            i = i + 1;
        }
        assert(lasers@ =~= self.lasers@);
        CalibDb { lasers }
    }
}

impl Default for CalibDb {
    /// Same as [`CalibDb::new`].
    fn default() -> (r: CalibDb)
        ensures
            r.wf(),
            forall|i: int| 0 <= i < LASER_COUNT ==> r@[i] == spec_zero_laser(),
    {
        CalibDb::new()
    }
}

} // verus!
