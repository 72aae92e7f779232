//! Scan parameters.
//!
//! All thresholds of the scan are held in one explicit structure, so tests
//! can vary them without touching the algorithms.  `default_config` carries
//! the documented defaults.

use vstd::prelude::*;

verus! {

/// Parameters of the tile scan.
#[derive(Clone, Copy, Debug, PartialEq, Eq, Structural)]
pub struct ScanConfig {
    /// Side length of the square sliding window, in pixels.
    pub tile_size: u32,
    /// Low hysteresis threshold of the edge detector.
    pub canny_low: u16,
    /// High hysteresis threshold of the edge detector.
    pub canny_high: u16,
    /// Minimum accumulator count for the line detector to report a line.
    pub vote_threshold: u32,
    /// Non-maximum-suppression radius of the line detector.
    pub suppression_radius: u32,
    /// Degree difference up to which consecutive angles merge into one
    /// cluster.
    pub batch_size: u32,
    /// Lower bound of the probability scaling window.
    pub cluster_low: u32,
    /// Upper bound of the probability scaling window.
    pub cluster_high: u32,
    /// A tile is accepted only when its probability strictly exceeds this.
    pub decision_threshold: u8,
}

impl ScanConfig {
    /// The configuration is usable: the tile is non-empty and small enough
    /// for the line detector's accumulator arithmetic, the edge thresholds
    /// are ordered and the low one positive (a zero low threshold lets the
    /// edge detector's hysteresis flood reach its zero-valued border
    /// pixels, where it fails), the suppression radius stays within the
    /// line detector's index arithmetic, and the probability divisor is
    /// positive.
    pub open spec fn valid(self) -> bool {
        &&& 1 <= self.tile_size
        &&& self.tile_size as int * self.tile_size as int * 2 <= u32::MAX as int
        &&& 1 <= self.canny_low
        &&& self.canny_low <= self.canny_high
        &&& self.suppression_radius <= u32::MAX - 0x2_0000
        &&& self.cluster_low < self.cluster_high
    }

    /// Runtime check of `valid`.
    pub fn is_valid(&self) -> (r: bool)
        ensures
            r == self.valid(),
    {
        proof {
            assert((self.tile_size as int) * (self.tile_size as int) <= 0x1_0000_0000
                * 0x1_0000_0000) by (nonlinear_arith)
                requires
                    0 <= self.tile_size as int <= 0x1_0000_0000,
            ;
        }
        let sq: u128 = self.tile_size as u128 * self.tile_size as u128;
        1 <= self.tile_size && sq * 2 <= u32::MAX as u128 && 1 <= self.canny_low
            && self.canny_low <= self.canny_high && self.suppression_radius <= u32::MAX - 0x2_0000
            && self.cluster_low < self.cluster_high
    }

    /// The documented default parameters: 750-pixel tiles, edge thresholds
    /// 1 and 175, vote threshold 150, suppression radius 8, cluster batch
    /// size 5, probability window 5..30 and decision threshold 75.
    pub fn default_config() -> (r: ScanConfig)
        ensures
            r.valid(),
            r.tile_size == 750,
            r.canny_low == 1,
            r.canny_high == 175,
            r.vote_threshold == 150,
            r.suppression_radius == 8,
            r.batch_size == 5,
            r.cluster_low == 5,
            r.cluster_high == 30,
            r.decision_threshold == 75,
    {
        ScanConfig {
            tile_size: 750,
            canny_low: 1,
            canny_high: 175,
            vote_threshold: 150,
            suppression_radius: 8,
            batch_size: 5,
            cluster_low: 5,
            cluster_high: 30,
            decision_threshold: 75,
        }
    }
}

} // verus!
