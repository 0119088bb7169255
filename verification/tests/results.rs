use pixelguard::compression::BatchSummary;
use pixelguard::compression::CompressionResult;
use pixelguard::compression::CompressionStatus;

fn success(original: u64, compressed: u64) -> CompressionResult {
    CompressionResult::new(
        String::from("in/a.png"),
        String::from("out/a_compressed.png"),
        original,
        compressed,
        42,
    )
}

#[test]
fn new_records_a_success() {
    let r = success(1000, 400);
    assert_eq!(r.input_path, "in/a.png");
    assert_eq!(r.output_path, "out/a_compressed.png");
    assert_eq!(r.original_size, 1000);
    assert_eq!(r.compressed_size, 400);
    assert_eq!(r.processing_time_ms, 42);
    assert!(matches!(r.status, CompressionStatus::Success));
}

#[test]
fn failed_records_carry_the_empty_shape() {
    let r = CompressionResult::failed(String::from("in/bad.png"), String::from("broken header"));
    assert_eq!(r.input_path, "in/bad.png");
    assert_eq!(r.output_path, "");
    assert_eq!(r.original_size, 0);
    assert_eq!(r.compressed_size, 0);
    assert_eq!(r.processing_time_ms, 0);
    match &r.status {
        CompressionStatus::Failed(m) => assert_eq!(m, "broken header"),
        _ => panic!("expected a failed status"),
    }
}

#[test]
fn space_saved_is_the_positive_difference() {
    assert_eq!(success(1000, 400).space_saved_bytes(), 600);
    assert_eq!(success(400, 1000).space_saved_bytes(), 0);
    assert_eq!(success(700, 700).space_saved_bytes(), 0);
}

#[test]
fn ratio_matches_one_minus_quotient() {
    // 1 - 400/1000 = 0.6 exactly.
    assert_eq!(success(1000, 400).compression_ratio_permyriad(), 6000);
    // 1 - 1/3 floored at four decimal digits.
    assert_eq!(success(3, 1).compression_ratio_permyriad(), 10000 - 3333);
    // Growth turns the ratio negative: 1 - 150/100 = -0.5.
    assert_eq!(success(100, 150).compression_ratio_permyriad(), -5000);
    // A zero original size pins the ratio to zero.
    assert_eq!(success(0, 5).compression_ratio_permyriad(), 0);
    // The one excluded boundary: an empty output gives exactly 1.
    assert_eq!(success(5, 0).compression_ratio_permyriad(), 10000);
}

#[test]
fn ratio_bounds_on_concrete_values() {
    // 0 < compressed <= original keeps the ratio inside [0, 1).
    for compressed in 1..=20u64 {
        let r = success(20, compressed).compression_ratio_permyriad();
        assert!((0..10000).contains(&r));
    }
}

#[test]
fn summary_folds_totals_and_counts() {
    let results = vec![
        success(1000, 400),
        CompressionResult::failed(String::from("in/b.png"), String::from("no such file")),
        success(2000, 2500),
    ];
    let s = BatchSummary::of_results(&results);
    assert_eq!(s.file_count, 3);
    assert_eq!(s.total_original, 3000);
    assert_eq!(s.total_compressed, 2900);
    assert_eq!(s.total_saved, 100);
    assert_eq!(s.success_count, 2);
    assert_eq!(s.failed_count, 1);
    assert_eq!(s.skipped_count, 0);
}

#[test]
fn summary_of_nothing_is_zero() {
    let s = BatchSummary::of_results(&Vec::new());
    assert_eq!(s.file_count, 0);
    assert_eq!(s.total_original, 0);
    assert_eq!(s.total_compressed, 0);
    assert_eq!(s.total_saved, 0);
    assert_eq!(s.success_count, 0);
    assert_eq!(s.failed_count, 0);
    assert_eq!(s.skipped_count, 0);
}

#[test]
fn summary_never_reports_negative_savings() {
    let results = vec![success(100, 900)];
    let s = BatchSummary::of_results(&results);
    assert_eq!(s.total_saved, 0);
}
