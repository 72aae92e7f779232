use barcode_scan::config::ScanConfig;
use barcode_scan::imaging::GrayBuffer;
use barcode_scan::scan::ScanError;
use barcode_scan::scan::scan_image;

fn solid_image(width: u32, height: u32, value: u8) -> GrayBuffer {
    let data: Vec<u8> = vec![value; (width * height) as usize];
    GrayBuffer::from_raw(width, height, data).unwrap()
}

/// Vertical stripes of the given half-period: many parallel vertical edges.
fn striped_image(width: u32, height: u32, half_period: u32) -> GrayBuffer {
    let mut data: Vec<u8> = Vec::with_capacity((width * height) as usize);
    for _y in 0..height {
        for x in 0..width {
            if (x / half_period) % 2 == 0 {
                data.push(255);
            } else {
                data.push(0);
            }
        }
    }
    GrayBuffer::from_raw(width, height, data).unwrap()
}

#[test]
fn buffer_needs_enough_bytes() {
    assert!(GrayBuffer::from_raw(10, 10, vec![0; 99]).is_none());
    assert!(GrayBuffer::from_raw(10, 10, vec![0; 100]).is_some());
}

#[test]
fn buffer_keeps_dimensions() {
    let buf = GrayBuffer::from_raw(8, 4, vec![7; 32]).unwrap();
    assert_eq!(buf.dimensions(), (8, 4));
    let (w, h, data) = buf.into_parts();
    assert_eq!(w, 8);
    assert_eq!(h, 4);
    assert_eq!(data.len(), 32);
}

#[test]
fn invalid_config_is_rejected() {
    let img = solid_image(100, 100, 0);
    let mut cfg = ScanConfig::default_config();
    cfg.cluster_low = 30;
    cfg.cluster_high = 5;
    assert!(matches!(scan_image(&img, &cfg), Err(ScanError::InvalidConfig)));
}

#[test]
fn zero_canny_low_is_rejected() {
    // A zero low threshold would let the edge detector's hysteresis flood
    // reach the border of the tile, where it fails.
    let img = solid_image(100, 100, 0);
    let mut cfg = ScanConfig::default_config();
    cfg.canny_low = 0;
    assert!(matches!(scan_image(&img, &cfg), Err(ScanError::InvalidConfig)));
}

#[test]
fn oversized_suppression_radius_is_rejected() {
    let img = solid_image(100, 100, 0);
    let mut cfg = ScanConfig::default_config();
    cfg.suppression_radius = u32::MAX;
    assert!(matches!(scan_image(&img, &cfg), Err(ScanError::InvalidConfig)));
}

#[test]
fn zero_tile_size_is_rejected() {
    let img = solid_image(100, 100, 0);
    let mut cfg = ScanConfig::default_config();
    cfg.tile_size = 0;
    assert!(matches!(scan_image(&img, &cfg), Err(ScanError::InvalidConfig)));
}

#[test]
fn image_not_larger_than_tile_is_rejected() {
    let img = solid_image(750, 750, 0);
    let cfg = ScanConfig::default_config();
    assert!(matches!(scan_image(&img, &cfg), Err(ScanError::ImageTooSmall)));
}

#[test]
fn small_image_is_rejected() {
    let img = solid_image(10, 10, 0);
    let cfg = ScanConfig::default_config();
    assert!(matches!(scan_image(&img, &cfg), Err(ScanError::ImageTooSmall)));
}

fn small_tile_config() -> ScanConfig {
    let mut cfg = ScanConfig::default_config();
    cfg.tile_size = 60;
    cfg.canny_high = 100;
    cfg.vote_threshold = 30;
    cfg.suppression_radius = 2;
    cfg
}

#[test]
fn featureless_image_yields_no_reports() {
    // No edges, so the line detector returns an empty set for every tile
    // and no tile produces a verdict.
    let img = solid_image(100, 100, 0);
    let cfg = small_tile_config();
    let reports = scan_image(&img, &cfg).unwrap();
    assert!(reports.is_empty());
}

#[test]
fn featureless_white_image_yields_no_reports() {
    // A constant bright image has no edges either; a wrapper that handed
    // the bright pixels through as an edge map would flood the line
    // detector with votes instead.
    let img = solid_image(100, 100, 255);
    let cfg = small_tile_config();
    let reports = scan_image(&img, &cfg).unwrap();
    assert!(reports.is_empty());
}

#[test]
fn blank_tiles_stay_silent() {
    // Stripes only in the left quarter of a wide image: tiles cut from the
    // blank right side must not report, so tile extraction really narrows
    // the view to the tile's own rectangle.
    let width: u32 = 240;
    let height: u32 = 120;
    let mut data: Vec<u8> = Vec::with_capacity((width * height) as usize);
    for _y in 0..height {
        for x in 0..width {
            if x < 60 && (x / 6) % 2 == 0 {
                data.push(255);
            } else {
                data.push(0);
            }
        }
    }
    let img = GrayBuffer::from_raw(width, height, data).unwrap();
    let mut cfg = small_tile_config();
    cfg.decision_threshold = 0;
    let reports = scan_image(&img, &cfg).unwrap();
    assert!(!reports.is_empty());
    for rep in &reports {
        assert!(rep.verdict.x <= 90);
    }
}

#[test]
fn striped_image_yields_reports() {
    // Many parallel vertical edges in every tile: with a permissive
    // decision threshold every reported tile must carry a verdict whose
    // probability lies in bounds and whose position is a valid window
    // coordinate.
    let img = striped_image(120, 120, 6);
    let mut cfg = small_tile_config();
    cfg.cluster_low = 5;
    cfg.cluster_high = 10;
    cfg.decision_threshold = 0;
    let reports = scan_image(&img, &cfg).unwrap();
    assert!(!reports.is_empty());
    for rep in &reports {
        assert!(!rep.lines.is_empty());
        assert!(rep.verdict.probability >= 1);
        assert!(rep.verdict.probability <= 100);
        assert!(rep.verdict.dominant_angle < 180);
        assert!(rep.verdict.median_angle < 180);
        assert!(rep.col < 4);
        assert!(rep.row < 4);
        assert!(rep.verdict.x + cfg.tile_size < 120);
        assert!(rep.verdict.y + cfg.tile_size < 120);
    }
}

#[test]
fn stripe_lines_are_vertical() {
    // The dominant cluster of a vertically striped tile is vertical: at
    // angle 0, or at the wrapped far end of the degree range.
    let img = striped_image(120, 120, 6);
    let mut cfg = small_tile_config();
    cfg.decision_threshold = 0;
    let reports = scan_image(&img, &cfg).unwrap();
    assert!(!reports.is_empty());
    for rep in &reports {
        assert!(rep.verdict.dominant_angle == 0 || rep.verdict.dominant_angle >= 175);
    }
}
