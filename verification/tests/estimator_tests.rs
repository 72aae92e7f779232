use barcode_scan::cluster::barcode_probability;
use barcode_scan::cluster::cluster_probability;
use barcode_scan::config::ScanConfig;
use barcode_scan::median::vector_median;
use barcode_scan::sorting::sort_angles;
use barcode_scan::verdict::decide_tile;
use barcode_scan::window::window_positions;

#[test]
fn median_odd_length() {
    let v: Vec<u32> = vec![10, 20, 30];
    assert_eq!(vector_median(&v), 20);
}

#[test]
fn median_even_length_is_mean_of_middles() {
    // The documented choice here is the conventional average of the two
    // middle elements, not the original single-element formula.
    let v: Vec<u32> = vec![10, 20];
    assert_eq!(vector_median(&v), 15);
}

#[test]
fn median_even_length_mixed() {
    let v: Vec<u32> = vec![10, 13, 17, 40];
    assert_eq!(vector_median(&v), 15);
}

#[test]
fn single_cluster_probability() {
    let (p, dominant) = barcode_probability(vec![10, 10, 10]);
    assert_eq!(p, 12);
    assert_eq!(dominant, 10);
}

#[test]
fn merge_sweep_clusters() {
    // 13 merges into 10 (13 - 10 <= 5); 17 and 40 start new clusters.
    let (p, dominant) = barcode_probability(vec![10, 13, 17, 40]);
    assert_eq!(p, 8);
    assert_eq!(dominant, 10);
}

#[test]
fn probability_is_clamped_to_100() {
    let angles: Vec<u32> = vec![90; 30];
    let (p, dominant) = barcode_probability(angles);
    assert_eq!(p, 100);
    assert_eq!(dominant, 90);
}

#[test]
fn probability_stays_in_bounds() {
    let samples: Vec<Vec<u32>> = vec![
        vec![0],
        vec![0, 179],
        vec![5, 5, 11, 11, 30, 44, 44, 44],
        vec![7; 100],
    ];
    for angles in samples {
        let (p, _) = barcode_probability(angles);
        assert!(p <= 100);
    }
}

#[test]
fn frequency_tie_goes_to_lowest_angle() {
    let (p, dominant) = barcode_probability(vec![10, 30]);
    assert_eq!(p, 4);
    assert_eq!(dominant, 10);
}

#[test]
fn cluster_probability_with_custom_divisor() {
    // Divisor 9 - 5 = 4, three merged angles: 3 * 100 / 4 = 75.
    let angles: Vec<u32> = vec![10, 10, 10];
    let (p, dominant) = cluster_probability(&angles, 5, 9, 5);
    assert_eq!(p, 75);
    assert_eq!(dominant, 10);
}

#[test]
fn sort_angles_orders_ascending() {
    let mut v: Vec<u32> = vec![40, 10, 17, 13, 10];
    sort_angles(&mut v);
    assert_eq!(v, vec![10, 10, 13, 17, 40]);
}

fn test_config() -> ScanConfig {
    let mut cfg = ScanConfig::default_config();
    cfg.tile_size = 60;
    cfg
}

#[test]
fn empty_angle_list_gives_no_verdict() {
    let cfg = test_config();
    let angles: Vec<u32> = Vec::new();
    assert!(decide_tile(0, 0, &angles, &cfg).is_none());
}

#[test]
fn probability_exactly_at_threshold_is_negative() {
    // Divisor 9 - 5 = 4 makes three merged angles score exactly 75, which
    // the strict comparison rejects.
    let mut cfg = test_config();
    cfg.cluster_high = 9;
    cfg.cluster_low = 5;
    let angles: Vec<u32> = vec![10, 10, 10];
    assert!(decide_tile(3, 4, &angles, &cfg).is_none());
}

#[test]
fn probability_above_threshold_is_positive() {
    let mut cfg = test_config();
    cfg.cluster_high = 9;
    cfg.cluster_low = 5;
    let angles: Vec<u32> = vec![10, 10, 10, 10];
    let v = decide_tile(3, 4, &angles, &cfg).unwrap();
    assert_eq!(v.x, 3);
    assert_eq!(v.y, 4);
    assert_eq!(v.probability, 100);
    assert_eq!(v.dominant_angle, 10);
    assert_eq!(v.median_angle, 10);
}

#[test]
fn verdict_fields_from_default_config() {
    // Nineteen merged angles score 19 * 100 / 25 = 76 > 75.
    let cfg = test_config();
    let mut angles: Vec<u32> = vec![10; 19];
    angles.push(40);
    let v = decide_tile(0, 0, &angles, &cfg).unwrap();
    assert_eq!(v.probability, 76);
    assert_eq!(v.dominant_angle, 10);
    assert_eq!(v.median_angle, 10);
}

#[test]
fn eighteen_votes_miss_default_threshold() {
    // Eighteen merged angles score 72, below the default threshold of 75.
    let cfg = test_config();
    let angles: Vec<u32> = vec![10; 18];
    assert!(decide_tile(0, 0, &angles, &cfg).is_none());
}

#[test]
fn window_two_thousand_square() {
    // 2000 / 750 * 2 = 4 steps per axis, stride 375, clamp at 1249.
    let positions = window_positions(2000, 2000, 750);
    assert_eq!(positions.len(), 16);
    let coords: Vec<u32> = vec![0, 375, 750, 1125];
    for (k, p) in positions.iter().enumerate() {
        assert_eq!(p.col as usize, k / 4);
        assert_eq!(p.row as usize, k % 4);
        assert_eq!(p.x, coords[p.col as usize]);
        assert_eq!(p.y, coords[p.row as usize]);
        assert!(p.x + 750 < 2000);
        assert!(p.y + 750 < 2000);
    }
}

#[test]
fn window_clamps_last_step_to_far_edge() {
    // 1000 / 300 * 2 = 6 steps; the sixth raw coordinate 750 clamps to
    // 1000 - 300 - 1 = 699.
    let positions = window_positions(1000, 1000, 300);
    assert_eq!(positions.len(), 36);
    let coords: Vec<u32> = vec![0, 150, 300, 450, 600, 699];
    for (k, p) in positions.iter().enumerate() {
        assert_eq!(p.col as usize, k / 6);
        assert_eq!(p.row as usize, k % 6);
        assert_eq!(p.x, coords[p.col as usize]);
        assert_eq!(p.y, coords[p.row as usize]);
        assert!(p.x + 300 < 1000);
        assert!(p.y + 300 < 1000);
    }
}
