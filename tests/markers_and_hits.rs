use audio_widgets::{
    frequency_markers, gain_markers, nearest, pass_filter_stages, HorizontalPosition, Ignore,
    Layout, MeterModel, VerticalPosition, COEFFICIENT_SCALE,
};

#[test]
fn frequency_markers_within_default_bounds() {
    let (major, minor) = frequency_markers(20, 24_000, true);
    assert!(major.contains(&100));
    assert!(major.contains(&1_000));
    assert!(major.contains(&10_000));
    assert!(!major.contains(&10));
    assert_eq!(major, vec![100, 1_000, 10_000]);
    assert_eq!(minor.first(), Some(&20));
    assert_eq!(minor.last(), Some(&20_000));
    assert_eq!(minor.len(), 25);
}

#[test]
fn marker_bounds_inclusive_and_exclusive() {
    let (major, minor) = frequency_markers(100, 10_000, true);
    assert_eq!(major, vec![100, 1_000, 10_000]);
    assert_eq!(minor.len(), 16);
    let (major, _) = frequency_markers(100, 10_000, false);
    assert_eq!(major, vec![1_000]);
}

#[test]
fn gain_markers_within_twelve_db() {
    let (major, minor) = gain_markers(-12, 12, true);
    assert_eq!(major, vec![-12, -6, 0, 6, 12]);
    assert_eq!(minor, vec![-9, -3, 3, 9]);
    let (major, minor) = gain_markers(-12, 12, false);
    assert_eq!(major, vec![-6, 0, 6]);
    assert_eq!(minor, vec![-9, -3, 3, 9]);
    let (major, minor) = gain_markers(1, 2, true);
    assert!(major.is_empty());
    assert!(minor.is_empty());
}

fn distance_key(x: f64, y: f64, bx: f64, by: f64) -> u64 {
    ((x - bx).powi(2) + (y - by).powi(2)).sqrt().to_bits()
}

#[test]
fn closest_band_hit_test() {
    let bands = [(10.0, 10.0), (100.0, 100.0)];
    let keys: Vec<u64> = bands.iter().map(|&(bx, by)| distance_key(12.0, 11.0, bx, by)).collect();
    assert_eq!(nearest(&keys, f64::MAX.to_bits()), Some(0));
    let keys: Vec<u64> = bands.iter().map(|&(bx, by)| distance_key(90.0, 95.0, bx, by)).collect();
    assert_eq!(nearest(&keys, f64::MAX.to_bits()), Some(1));
}

#[test]
fn hit_test_tie_goes_to_first_band() {
    let keys = vec![distance_key(0.0, 0.0, 3.0, 4.0), distance_key(0.0, 0.0, 4.0, 3.0)];
    assert_eq!(nearest(&keys, f64::MAX.to_bits()), Some(0));
}

#[test]
fn hit_test_without_candidates() {
    assert_eq!(nearest(&Vec::new(), f64::MAX.to_bits()), None);
    let keys = vec![f64::INFINITY.to_bits(), f64::NAN.to_bits()];
    assert_eq!(nearest(&keys, f64::MAX.to_bits()), None);
}

#[test]
fn pass_filter_stages_per_order() {
    assert!(pass_filter_stages(0).is_empty());
    assert!(pass_filter_stages(5).is_empty());
    assert_eq!(pass_filter_stages(6), vec![(10_000, 0)]);
    assert_eq!(pass_filter_stages(12), vec![(14_142, 10_000)]);
    assert_eq!(pass_filter_stages(18), vec![(10_000, 0), (10_000, 10_000)]);
    assert_eq!(pass_filter_stages(24), vec![(18_478, 10_000), (7_654, 10_000)]);
    assert_eq!(
        pass_filter_stages(30),
        vec![(10_000, 0), (16_180, 10_000), (6_180, 10_000)]
    );
    assert_eq!(
        pass_filter_stages(36),
        vec![(13_617, 6_180), (13_617, 6_180), (0, 0)]
    );
    assert_eq!(
        pass_filter_stages(42),
        vec![(14_142, 10_000), (14_142, 10_000), (0, 0)]
    );
}

#[test]
fn coefficients_scale_to_their_decimal_values() {
    let scale = COEFFICIENT_SCALE as f64;
    let (a, b) = pass_filter_stages(24)[0];
    assert_eq!(a as f64 / scale, 1.8478);
    assert_eq!(b as f64 / scale, 1.0);
    assert_eq!(pass_filter_stages(12)[0].0 as f64 / scale, 1.4142);
}

#[test]
fn layout_decides_inversion_and_placement() {
    let top = Layout::Horizontal(HorizontalPosition::Top);
    let bottom = Layout::Horizontal(HorizontalPosition::Bottom);
    let left = Layout::Vertical(VerticalPosition::Left);
    let right = Layout::Vertical(VerticalPosition::Right);
    assert!(!top.inverts_pixels(true));
    assert!(left.inverts_pixels(true));
    assert!(!right.inverts_pixels(false));
    assert_eq!(top.label_position(5.0, 0.0, 30.0), (5.0, 0.0));
    assert_eq!(bottom.label_position(5.0, 0.0, 30.0), (5.0, 30.0));
    assert_eq!(left.label_position(5.0, 0.0, 30.0), (0.0, 5.0));
    assert_eq!(right.label_position(5.0, 0.0, 30.0), (30.0, 5.0));
    assert_eq!(top.line_ends(7.0, 0.0, 20.0), ((7.0, 0.0), (7.0, 20.0)));
    assert_eq!(right.line_ends(7.0, 0.0, 20.0), ((0.0, 7.0), (20.0, 7.0)));
}

#[test]
fn meter_starts_low_with_peak_at_top() {
    let meter = MeterModel::new(-60.0, 0.0);
    assert_eq!(meter, MeterModel { min: -60.0, max: 0.0, value: -60.0, peak: 0.0 });
    let next = meter.update(-12.0, -3.0);
    assert_eq!(next, MeterModel { min: -60.0, max: 0.0, value: -12.0, peak: -3.0 });
}

#[test]
fn ignoring_a_failed_result_does_nothing() {
    let failed: Result<(), String> = Err(String::from("gone"));
    failed.ignore();
    Ok::<(), String>(()).ignore();
}
