//! Tile-scanning orchestration.
//!
//! The scan walks the overlapping window positions of the image, runs the
//! outside edge and line detectors on each tile, and keeps a report for
//! every tile whose clustering probability strictly exceeds the decision
//! threshold.  A tile without detected lines is skipped silently.  Reports
//! carry the tile's step indices, so output naming stays deterministic per
//! tile whatever order the reports are consumed in.

use vstd::prelude::*;

use crate::cluster::is_dominant;
use crate::cluster::prob_with;
use crate::cluster::rewrite_seq;
use crate::config::ScanConfig;
use crate::imaging::GrayBuffer;
use crate::imaging::canny_edges;
use crate::imaging::canny_of;
use crate::imaging::detect_line_angles;
use crate::imaging::extract_tile;
use crate::imaging::gray_height;
use crate::imaging::gray_pixels;
use crate::imaging::gray_width;
use crate::imaging::hough_angles_of;
use crate::imaging::rect_pixels;
use crate::sorting::freq;
use crate::sorting::lemma_sort_seq;
use crate::sorting::lemma_sorted_unique;
use crate::sorting::sort_angles;
use crate::sorting::sort_seq;
use crate::verdict::TileVerdict;
use crate::verdict::decide_tile;
use crate::verdict::verdict_for;
use crate::window::axis_coord;
use crate::window::axis_steps;
use crate::window::window_positions;

verus! {

/// Why a scan returned nothing.
#[derive(Clone, Copy, Debug, PartialEq, Eq, Structural)]
pub enum ScanError {
    /// The configuration fails its validity conditions.
    InvalidConfig,
    /// One image dimension is not strictly larger than the tile size, so
    /// the clamped window coordinates would underflow.
    ImageTooSmall,
}

/// An accepted tile: where it sits in the window walk, the edge map and
/// detected lines the renderer needs, and the verdict.
pub struct TileReport {
    /// Step index along the x axis.
    pub col: u64,
    /// Step index along the y axis.
    pub row: u64,
    /// Binary edge map of the tile.
    pub edges: GrayBuffer,
    /// Lines the detector found in the edge map.
    pub lines: Vec<imageproc::hough::PolarLine>,
    /// The accepted verdict.
    pub verdict: TileVerdict,
}

/// The angles the line detector reports for the tile at flat window index
/// `k` of the image: the tile's rectangle is cut out, the edge detector
/// runs on it, and the line detector runs on the edge map.  Both detectors
/// are functions of their arguments alone, so this is a function of the
/// image's pixels and the configuration.
pub open spec fn tile_angles(img: GrayBuffer, cfg: ScanConfig, k: int) -> Seq<u32> {
    let width = gray_width(img);
    let height = gray_height(img);
    let ts = cfg.tile_size;
    let sy = axis_steps(height, ts);
    let tile = rect_pixels(
        gray_pixels(img),
        width as int,
        axis_coord(width, ts, k / sy),
        axis_coord(height, ts, k % sy),
        ts as int,
        ts as int,
    );
    hough_angles_of(
        canny_of(tile, ts, ts, cfg.canny_low, cfg.canny_high),
        ts,
        ts,
        cfg.vote_threshold,
        cfg.suppression_radius,
    )
}

/// The tile at flat window index `k` is accepted: it has at least one
/// detected line and the clustering probability of its sorted angle list
/// strictly exceeds the decision threshold.
pub open spec fn tile_accepted(img: GrayBuffer, cfg: ScanConfig, k: int) -> bool {
    let sa = sort_seq(tile_angles(img, cfg, k));
    let rw = rewrite_seq(sa, cfg.batch_size);
    &&& sa.len() > 0
    &&& exists|d: u32|
        is_dominant(rw, d) && prob_with(
            rw,
            d,
            cfg.cluster_high as int - cfg.cluster_low as int,
        ) > cfg.decision_threshold
}

/// The position of a report's tile in the window walk, which moves along
/// the y axis innermost.
pub open spec fn walk_index(rep: TileReport, height: u32, cfg: ScanConfig) -> int {
    rep.col * axis_steps(height, cfg.tile_size) + rep.row
}

/// Everything the scan promises of one report: the tile sits at a valid
/// window position strictly inside the image, its line count is the
/// detector's for that tile and positive, and the verdict's fields are
/// exactly those of the estimator run on the tile's own sorted detected
/// angles, with a probability strictly over the threshold.
pub open spec fn report_ok(rep: TileReport, img: GrayBuffer, cfg: ScanConfig) -> bool {
    let width = gray_width(img);
    let height = gray_height(img);
    let k = walk_index(rep, height, cfg);
    &&& rep.col < axis_steps(width, cfg.tile_size)
    &&& rep.row < axis_steps(height, cfg.tile_size)
    &&& rep.verdict.x == axis_coord(width, cfg.tile_size, rep.col as int)
    &&& rep.verdict.y == axis_coord(height, cfg.tile_size, rep.row as int)
    &&& rep.verdict.x + cfg.tile_size < width
    &&& rep.verdict.y + cfg.tile_size < height
    &&& gray_width(rep.edges) == cfg.tile_size
    &&& gray_height(rep.edges) == cfg.tile_size
    &&& rep.lines@.len() == tile_angles(img, cfg, k).len()
    &&& rep.lines@.len() > 0
    &&& verdict_for(rep.verdict, sort_seq(tile_angles(img, cfg, k)), cfg)
}

/// Scans the image with the overlapping sliding window and returns a
/// report for every accepted tile, in walk order: a tile of the walk has a
/// report exactly when the line detector finds at least one line in it and
/// the clustering probability of its angles strictly exceeds the decision
/// threshold, and each report's verdict is computed from that tile's own
/// pixels.  Fails exactly when the configuration is invalid or one image
/// dimension does not strictly exceed the tile size.
pub fn scan_image(img: &GrayBuffer, cfg: &ScanConfig) -> (r: Result<Vec<TileReport>, ScanError>)
    ensures
        match r {
            Ok(reports) => {
                &&& cfg.valid()
                &&& gray_width(*img) > cfg.tile_size
                &&& gray_height(*img) > cfg.tile_size
                &&& forall|i: int|
                    0 <= i < reports@.len() ==> report_ok(#[trigger] reports@[i], *img, *cfg)
                &&& forall|i: int, j: int|
                    0 <= i < j < reports@.len() ==> walk_index(
                        #[trigger] reports@[i],
                        gray_height(*img),
                        *cfg,
                    ) < walk_index(#[trigger] reports@[j], gray_height(*img), *cfg)
                &&& forall|k: int|
                    0 <= k < axis_steps(gray_width(*img), cfg.tile_size) * axis_steps(
                        gray_height(*img),
                        cfg.tile_size,
                    ) ==> (#[trigger] tile_accepted(*img, *cfg, k) <==> exists|i: int|
                        0 <= i < reports@.len() && walk_index(
                            #[trigger] reports@[i],
                            gray_height(*img),
                            *cfg,
                        ) == k)
            },
            Err(ScanError::InvalidConfig) => !cfg.valid(),
            Err(ScanError::ImageTooSmall) => cfg.valid() && (gray_width(*img) <= cfg.tile_size
                || gray_height(*img) <= cfg.tile_size),
        },
{
    if !cfg.is_valid() {
        return Err(ScanError::InvalidConfig);
    }
    let (width, height) = img.dimensions();
    let ts = cfg.tile_size;
    if width <= ts || height <= ts {
        return Err(ScanError::ImageTooSmall);
    }
    let positions = window_positions(width, height, ts);
    let mut reports: Vec<TileReport> = Vec::new();
    let mut k: usize = 0;
    while k < positions.len()
        invariant
            cfg.valid(),
            width == gray_width(*img),
            height == gray_height(*img),
            ts == cfg.tile_size,
            ts < width,
            ts < height,
            forall|m: int|
                0 <= m < positions@.len() ==> crate::window::pos_ok(
                    #[trigger] positions@[m],
                    width,
                    height,
                    ts,
                    m,
                ),
            forall|i: int|
                0 <= i < reports@.len() ==> report_ok(#[trigger] reports@[i], *img, *cfg),
            forall|i: int|
                0 <= i < reports@.len() ==> walk_index(#[trigger] reports@[i], height, *cfg) < k,
            forall|i: int, j: int|
                0 <= i < j < reports@.len() ==> walk_index(#[trigger] reports@[i], height, *cfg)
                    < walk_index(#[trigger] reports@[j], height, *cfg),
            forall|k2: int|
                0 <= k2 < k ==> (#[trigger] tile_accepted(*img, *cfg, k2) <==> exists|i: int|
                    0 <= i < reports@.len() && walk_index(#[trigger] reports@[i], height, *cfg)
                        == k2),
        decreases positions@.len() - k,
    {
        let pos = &positions[k];
        let tile = extract_tile(img, pos.x, pos.y, ts, ts);
        let edges = canny_edges(&tile, cfg.canny_low, cfg.canny_high);
        let (lines, raw_angles) = detect_line_angles(
            &edges,
            cfg.vote_threshold,
            cfg.suppression_radius,
        );
        let ghost unsorted = raw_angles@;
        let mut angles = raw_angles;
        sort_angles(&mut angles);
        proof {
            assert(unsorted == tile_angles(*img, *cfg, k as int));
            lemma_sort_seq(unsorted);
            assert forall|v: u32| freq(angles@, v) == freq(sort_seq(unsorted), v) by {}
            lemma_sorted_unique(angles@, sort_seq(unsorted));
            assert forall|t: int| 0 <= t < angles@.len() implies angles@[t] < 180 by {
                assert(unsorted.contains(angles@[t]));
            }
        }
        let ghost old_reports = reports@;
        match decide_tile(pos.x, pos.y, &angles, cfg) {
            Some(verdict) => {
                let rep = TileReport { col: pos.col, row: pos.row, edges, lines, verdict };
                proof {
                    assert(walk_index(rep, height, *cfg) == k) by {
                        let sy = axis_steps(height, ts);
                        vstd::arithmetic::div_mod::lemma_fundamental_div_mod(k as int, sy);
                        assert(sy * (k as int / sy) == (k as int / sy) * sy) by (nonlinear_arith);
                    }
                    assert(report_ok(rep, *img, *cfg));
                    assert(tile_accepted(*img, *cfg, k as int));
                }
                reports.push(rep);
            },
            None => {
                proof {
                    assert(!tile_accepted(*img, *cfg, k as int)) by {
                        if tile_accepted(*img, *cfg, k as int) {
                            let sa = sort_seq(tile_angles(*img, *cfg, k as int));
                            assert(sa == angles@);
                            let d = choose|d: u32|
                                is_dominant(rewrite_seq(sa, cfg.batch_size), d) && prob_with(
                                    rewrite_seq(sa, cfg.batch_size),
                                    d,
                                    cfg.cluster_high as int - cfg.cluster_low as int,
                                ) > cfg.decision_threshold;
                            assert(prob_with(
                                rewrite_seq(angles@, cfg.batch_size),
                                d,
                                cfg.cluster_high as int - cfg.cluster_low as int,
                            ) <= cfg.decision_threshold);
                        }
                    }
                }
            },
        }
        proof {
            assert forall|k2: int| 0 <= k2 < k + 1 implies (tile_accepted(*img, *cfg, k2)
                <==> exists|i: int|
                0 <= i < reports@.len() && walk_index(#[trigger] reports@[i], height, *cfg)
                    == k2) by {
                if k2 < k {
                    if tile_accepted(*img, *cfg, k2) {
                        let i = choose|i: int|
                            0 <= i < old_reports.len() && walk_index(old_reports[i], height, *cfg)
                                == k2;
                        assert(reports@[i] == old_reports[i]);
                    } else {
                        assert forall|i: int|
                            0 <= i < reports@.len() implies walk_index(
                            #[trigger] reports@[i],
                            height,
                            *cfg,
                        ) != k2 by {
                            if i < old_reports.len() {
                                assert(reports@[i] == old_reports[i]);
                            }
                        }
                    }
                } else {
                    if tile_accepted(*img, *cfg, k2) {
                        assert(walk_index(reports@[reports@.len() - 1], height, *cfg) == k2);
                    }
                }
            }
        }
        k += 1;
    }
    Ok(reports)
}

} // verus!
