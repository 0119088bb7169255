use pixelguard::compression::CodecOutcome;
use pixelguard::compression::CodecParams;
use pixelguard::compression::CompressionEngine;
use pixelguard::compression::CompressionProgress;
use pixelguard::compression::CompressionSettings;
use pixelguard::compression::CompressionStatus;
use pixelguard::compression::OutputFormat;
use pixelguard::compression::plan_job;
use pixelguard::file::FileManager;
use pixelguard::file::ImageFile;

fn file(path: &str, size: u64) -> ImageFile {
    FileManager::analyze_file(String::from(path), size).unwrap()
}

fn png_settings() -> CompressionSettings {
    let mut s = CompressionSettings::default();
    s.output_directory = String::from("out");
    s
}

fn ok(size: u64, ms: u64) -> CodecOutcome {
    CodecOutcome { encoded: Ok(size), elapsed_ms: ms }
}

fn err(msg: &str) -> CodecOutcome {
    CodecOutcome { encoded: Err(String::from(msg)), elapsed_ms: 7 }
}

#[test]
fn three_valid_png_inputs() {
    // Directory created, three inputs, all succeed: three Processing events
    // with total 3 and current 1..3 in order, a Progress event after each
    // file, the final event Complete, no Error, and three Success results.
    let files = vec![file("in/a.png", 100), file("in/b.png", 200), file("in/c.png", 300)];
    let outcomes = vec![ok(40, 1), ok(80, 2), ok(120, 3)];
    let (results, events) = CompressionEngine::compress_files(
        files,
        png_settings(),
        true,
        String::new(),
        outcomes,
    );

    assert_eq!(results.len(), 3);
    for r in &results {
        assert!(matches!(r.status, CompressionStatus::Success));
    }
    assert_eq!(results[0].input_path, "in/a.png");
    assert_eq!(results[1].input_path, "in/b.png");
    assert_eq!(results[2].input_path, "in/c.png");
    assert_eq!(results[0].output_path, "out/a_compressed.png");
    assert_eq!(results[1].output_path, "out/b_compressed.png");
    assert_eq!(results[2].output_path, "out/c_compressed.png");
    assert_eq!(results[0].original_size, 100);
    assert_eq!(results[0].compressed_size, 40);
    assert_eq!(results[0].processing_time_ms, 1);

    assert_eq!(events.len(), 7);
    let mut processing_seen = 0usize;
    for e in &events {
        assert!(!matches!(e, CompressionProgress::Error(_)));
        if let CompressionProgress::Processing { current, total, filename } = e {
            processing_seen += 1;
            assert_eq!(*total, 3);
            assert_eq!(*current, processing_seen);
            let expected = ["a.png", "b.png", "c.png"][processing_seen - 1];
            assert_eq!(filename, expected);
        }
    }
    assert_eq!(processing_seen, 3);
    assert!(matches!(events[6], CompressionProgress::Complete));
}

#[test]
fn unwritable_output_directory_aborts() {
    // The host could not create the directory: exactly one Error event, an
    // empty result list, and no Processing event at all.
    let files = vec![file("in/a.png", 100), file("in/b.png", 200)];
    let outcomes = vec![ok(1, 1), ok(1, 1)];
    let (results, events) = CompressionEngine::compress_files(
        files,
        png_settings(),
        false,
        String::from("permission denied"),
        outcomes,
    );
    assert!(results.is_empty());
    assert_eq!(events.len(), 1);
    match &events[0] {
        CompressionProgress::Error(m) => assert_eq!(m, "permission denied"),
        _ => panic!("expected the error event"),
    }
}

#[test]
fn one_corrupt_file_does_not_abort_the_batch() {
    // File 1 cannot be decoded, file 2 is fine: two results, the first
    // Failed with the reason, the second Success, both event pairs, and the
    // final event Complete.
    let files = vec![file("in/bad.png", 50), file("in/good.png", 500)];
    let outcomes = vec![err("broken header"), ok(200, 9)];
    let (results, events) = CompressionEngine::compress_files(
        files,
        png_settings(),
        true,
        String::new(),
        outcomes,
    );

    assert_eq!(results.len(), 2);
    match &results[0].status {
        CompressionStatus::Failed(m) => assert_eq!(m, "broken header"),
        _ => panic!("expected the first result to fail"),
    }
    assert_eq!(results[0].output_path, "");
    assert_eq!(results[0].original_size, 0);
    assert_eq!(results[0].compressed_size, 0);
    assert_eq!(results[0].processing_time_ms, 0);
    assert!(matches!(results[1].status, CompressionStatus::Success));

    assert_eq!(events.len(), 5);
    assert!(matches!(
        events[0],
        CompressionProgress::Processing { current: 1, total: 2, .. }
    ));
    assert!(matches!(events[1], CompressionProgress::Progress { current: 1, total: 2 }));
    assert!(matches!(
        events[2],
        CompressionProgress::Processing { current: 2, total: 2, .. }
    ));
    assert!(matches!(events[3], CompressionProgress::Progress { current: 2, total: 2 }));
    assert!(matches!(events[4], CompressionProgress::Complete));
}

#[test]
fn empty_batch_completes_at_once() {
    // No inputs: no Processing event, one Complete event, no results.
    let (results, events) = CompressionEngine::compress_files(
        Vec::new(),
        png_settings(),
        true,
        String::new(),
        Vec::new(),
    );
    assert!(results.is_empty());
    assert_eq!(events.len(), 1);
    assert!(matches!(events[0], CompressionProgress::Complete));
}

#[test]
fn step_interface_walks_the_batch() {
    let files = vec![file("in/a.jpg", 100), file("in/b.jpg", 200)];
    let mut settings = CompressionSettings::default();
    settings.output_format = OutputFormat::Jpeg;
    settings.output_directory = String::from("out");
    settings.jpeg_quality = 77;

    let mut engine = CompressionEngine::new(files, settings);
    let events = engine.begin(true, String::new());
    assert_eq!(events.len(), 1);
    assert!(matches!(
        events[0],
        CompressionProgress::Processing { current: 1, total: 2, .. }
    ));

    let job = engine.current_job().unwrap();
    assert_eq!(job.input_path, "in/a.jpg");
    assert_eq!(job.output_path, "out/a_compressed.jpg");
    match job.params {
        CodecParams::Jpeg { quality } => assert_eq!(quality, 77),
        _ => panic!("expected the JPEG path"),
    }

    let events = engine.record_outcome(Ok(60), 5);
    assert_eq!(events.len(), 2);
    assert!(matches!(events[0], CompressionProgress::Progress { current: 1, total: 2 }));
    assert!(matches!(
        events[1],
        CompressionProgress::Processing { current: 2, total: 2, .. }
    ));

    let job = engine.current_job().unwrap();
    assert_eq!(job.input_path, "in/b.jpg");

    let events = engine.record_outcome(Err(String::from("disk full")), 5);
    assert_eq!(events.len(), 2);
    assert!(matches!(events[1], CompressionProgress::Complete));
    assert!(engine.current_job().is_none());

    let results = engine.into_results();
    assert_eq!(results.len(), 2);
    assert!(matches!(results[0].status, CompressionStatus::Success));
    assert!(matches!(results[1].status, CompressionStatus::Failed(_)));
}

#[test]
fn plan_job_selects_the_png_knobs() {
    let settings = png_settings();
    let job = plan_job(&file("in/a.bmp", 10), &settings);
    assert_eq!(job.output_path, "out/a_compressed.png");
    match job.params {
        CodecParams::Png { strip_metadata, temp_path } => {
            // Metadata is stripped exactly when preservation is off.
            assert!(strip_metadata);
            assert_eq!(temp_path, "out/a_compressed.temp.png");
        },
        _ => panic!("expected the PNG path"),
    }
}

#[test]
fn plan_job_selects_the_webp_knobs() {
    let mut settings = png_settings();
    settings.output_format = OutputFormat::WebP;
    settings.webp_quality_tenths = 625;
    settings.preserve_metadata = true;
    let job = plan_job(&file("in/a.bmp", 10), &settings);
    assert_eq!(job.output_path, "out/a_compressed.webp");
    match job.params {
        CodecParams::WebP { quality_tenths } => assert_eq!(quality_tenths, 625),
        _ => panic!("expected the WebP path"),
    }
}

#[test]
fn preserved_metadata_reaches_the_png_job() {
    let mut settings = png_settings();
    settings.preserve_metadata = true;
    let job = plan_job(&file("in/a.png", 10), &settings);
    match job.params {
        CodecParams::Png { strip_metadata, .. } => assert!(!strip_metadata),
        _ => panic!("expected the PNG path"),
    }
}
