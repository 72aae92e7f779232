//! Per-tile decision.
//!
//! A tile whose line detector reported no lines yields no verdict.  For any
//! other tile, the median angle and the clustering probability are computed
//! from the sorted angle list, and the tile is accepted exactly when the
//! probability strictly exceeds the decision threshold.

use vstd::prelude::*;

use crate::cluster::cluster_probability;
use crate::cluster::is_dominant;
use crate::cluster::lemma_dominant_unique;
use crate::cluster::prob_with;
use crate::cluster::rewrite_seq;
use crate::config::ScanConfig;
use crate::median::median_spec;
use crate::median::vector_median;
use crate::sorting::sorted;

verus! {

/// An accepted tile: its top-left coordinates, the median line angle in
/// degrees, the barcode probability and the dominant cluster angle.
#[derive(Clone, Copy, Debug, PartialEq, Eq, Structural)]
pub struct TileVerdict {
    /// Top-left pixel column of the tile.
    pub x: u32,
    /// Top-left pixel row of the tile.
    pub y: u32,
    /// Median of the detected line angles, in degrees.
    pub median_angle: u32,
    /// Barcode probability of the tile, between 0 and 100.
    pub probability: u8,
    /// Seed angle of the most frequent cluster.
    pub dominant_angle: u32,
}

/// What a verdict must say about a sorted angle list under a configuration.
pub open spec fn verdict_for(v: TileVerdict, angles: Seq<u32>, cfg: ScanConfig) -> bool {
    let rw = rewrite_seq(angles, cfg.batch_size);
    let divisor = cfg.cluster_high as int - cfg.cluster_low as int;
    &&& v.median_angle as int == median_spec(angles)
    &&& is_dominant(rw, v.dominant_angle)
    &&& v.probability as int == prob_with(rw, v.dominant_angle, divisor)
    &&& v.probability <= 100
    &&& v.probability > cfg.decision_threshold
}

/// Decides a tile at `(x, y)` from its sorted line angles: `Some` verdict
/// exactly when there is at least one angle and the clustering probability
/// strictly exceeds the decision threshold; a probability equal to the
/// threshold is a negative verdict, and an empty angle list never yields
/// one.
pub fn decide_tile(x: u32, y: u32, angles: &Vec<u32>, cfg: &ScanConfig) -> (r: Option<TileVerdict>)
    requires
        sorted(angles@),
        cfg.valid(),
    ensures
        match r {
            Some(v) => {
                &&& angles@.len() > 0
                &&& v.x == x
                &&& v.y == y
                &&& verdict_for(v, angles@, *cfg)
            },
            None => angles@.len() == 0 || (forall|d: u32|
                is_dominant(rewrite_seq(angles@, cfg.batch_size), d) ==> prob_with(
                    rewrite_seq(angles@, cfg.batch_size),
                    d,
                    cfg.cluster_high as int - cfg.cluster_low as int,
                ) <= cfg.decision_threshold),
        },
{
    if angles.len() == 0 {
        return None;
    }
    let median_angle = vector_median(angles);
    let (probability, dominant_angle) = cluster_probability(
        angles,
        cfg.batch_size,
        cfg.cluster_high,
        cfg.cluster_low,
    );
    if probability > cfg.decision_threshold {
        Some(TileVerdict { x, y, median_angle, probability, dominant_angle })
    } else {
        proof {
            let rw = rewrite_seq(angles@, cfg.batch_size);
            assert forall|d: u32| is_dominant(rw, d) implies prob_with(
                rw,
                d,
                cfg.cluster_high as int - cfg.cluster_low as int,
            ) <= cfg.decision_threshold by {
                lemma_dominant_unique(rw, d, dominant_angle);
            }
        }
        None
    }
}

} // verus!
