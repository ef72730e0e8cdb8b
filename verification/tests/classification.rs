use emu_test_runner::inputs::TestCandidate;
use emu_test_runner::options::EmuRunnerOptions;
use emu_test_runner::outputs::EmuContext;
use emu_test_runner::outputs::FrameOutput;
use emu_test_runner::outputs::RgbaFrame;
use emu_test_runner::outputs::RunnerOutput;
use emu_test_runner::outputs::RunnerOutputContext;
use emu_test_runner::outputs::TestOutputType;
use emu_test_runner::processing::process_candidate;
use emu_test_runner::processing::process_frame;
use emu_test_runner::processing::FrameFiles;
use emu_test_runner::setup::frame_paths;
use emu_test_runner::setup::FramePaths;

fn test_options() -> EmuRunnerOptions {
    let mut options = EmuRunnerOptions::default();
    options.output_path = "out".to_owned();
    options.snapshot_path = "snaps".to_owned();
    options.expected_frame_width = 2;
    options.expected_frame_height = 2;
    options
}

fn rom_a_paths() -> FramePaths {
    let candidate = TestCandidate::new("rom_a".to_owned(), "roms/rom_a.gb".to_owned(), false);
    frame_paths(&candidate, &None, &test_options())
}

fn frame_of(pixels: Vec<u8>) -> FrameOutput {
    FrameOutput { tag: None, frame: RgbaFrame(pixels) }
}

/// A 2x2 RGBA frame: 16 bytes.
fn pixels_a() -> Vec<u8> {
    vec![10, 20, 30, 255, 40, 50, 60, 255, 70, 80, 90, 255, 100, 110, 120, 255]
}

/// Differs from `pixels_a` by exactly 1 in a single channel.
fn pixels_b() -> Vec<u8> {
    let mut p = pixels_a();
    p[5] += 1;
    p
}

fn png_of(pixels: Vec<u8>) -> Vec<u8> {
    let no_files = FrameFiles { old_file: None, snapshot_file: None };
    let classification = process_frame(&frame_of(pixels), &no_files, &rom_a_paths(), 2, 2);
    classification.new_image.expect("encoding a well-formed frame must yield an image")
}

#[test]
fn first_run_is_changed_then_unchanged() {
    let paths = rom_a_paths();
    let no_files = FrameFiles { old_file: None, snapshot_file: None };

    let first = process_frame(&frame_of(pixels_a()), &no_files, &paths, 2, 2);
    match first.outcome {
        TestOutputType::Changed(c) => {
            assert_eq!(c.changed_path, "out/changed/rom_a.png");
            assert_eq!(c.old_path, "out/old/rom_a.png");
        }
        other => panic!("first run must be Changed, got {:?}", other),
    }
    let persisted = first.new_image.expect("first run must persist an image");

    let second_files = FrameFiles { old_file: Some(persisted), snapshot_file: None };
    let second = process_frame(&frame_of(pixels_a()), &second_files, &paths, 2, 2);
    match second.outcome {
        TestOutputType::Unchanged(u) => assert!(!u.newly_added),
        other => panic!("second run must be Unchanged, got {:?}", other),
    }
}

#[test]
fn snapshot_match_passes() {
    let paths = rom_a_paths();
    let golden = png_of(pixels_a());

    let files = FrameFiles { old_file: None, snapshot_file: Some(golden.clone()) };
    let fresh = process_frame(&frame_of(pixels_a()), &files, &paths, 2, 2);
    match fresh.outcome {
        TestOutputType::Passed(p) => assert!(p.is_new),
        other => panic!("matching snapshot must be Passed, got {:?}", other),
    }

    let files_with_old = FrameFiles {
        old_file: Some(png_of(pixels_a())),
        snapshot_file: Some(golden),
    };
    let repeated = process_frame(&frame_of(pixels_a()), &files_with_old, &paths, 2, 2);
    match repeated.outcome {
        TestOutputType::Passed(p) => assert!(!p.is_new),
        other => panic!("matching snapshot must be Passed, got {:?}", other),
    }
}

#[test]
fn regression_is_new_exactly_once() {
    let paths = rom_a_paths();
    let golden = png_of(pixels_a());

    let run_b_first = FrameFiles {
        old_file: Some(png_of(pixels_a())),
        snapshot_file: Some(golden.clone()),
    };
    let first = process_frame(&frame_of(pixels_b()), &run_b_first, &paths, 2, 2);
    match first.outcome {
        TestOutputType::Failure(f) => {
            assert!(f.is_new);
            assert_eq!(f.failure_path, "out/failures/rom_a.png");
            assert_eq!(f.snapshot_path, "snaps/rom_a.png");
        }
        other => panic!("differing snapshot must be Failure, got {:?}", other),
    }

    let run_b_again = FrameFiles {
        old_file: Some(png_of(pixels_b())),
        snapshot_file: Some(golden),
    };
    let repeated = process_frame(&frame_of(pixels_b()), &run_b_again, &paths, 2, 2);
    match repeated.outcome {
        TestOutputType::Failure(f) => assert!(!f.is_new),
        other => panic!("differing snapshot must be Failure, got {:?}", other),
    }
}

#[test]
fn single_channel_difference_is_never_unchanged() {
    let paths = rom_a_paths();
    let files = FrameFiles { old_file: Some(png_of(pixels_a())), snapshot_file: None };
    let outcome = process_frame(&frame_of(pixels_b()), &files, &paths, 2, 2).outcome;
    assert!(matches!(outcome, TestOutputType::Changed(_)), "got {:?}", outcome);
}

#[test]
fn single_channel_difference_is_never_passed() {
    let paths = rom_a_paths();
    let files = FrameFiles {
        old_file: None,
        snapshot_file: Some(png_of(pixels_a())),
    };
    let outcome = process_frame(&frame_of(pixels_b()), &files, &paths, 2, 2).outcome;
    assert!(matches!(outcome, TestOutputType::Failure(_)), "got {:?}", outcome);
}

#[test]
fn dimension_mismatch_is_an_error() {
    let paths = rom_a_paths();
    let no_files = FrameFiles { old_file: None, snapshot_file: None };
    let short_frame = frame_of(vec![1, 2, 3]);
    let classification = process_frame(&short_frame, &no_files, &paths, 2, 2);
    assert!(classification.new_image.is_none());
    match classification.outcome {
        TestOutputType::Error(e) => {
            assert_eq!(e.reason, "Failed to turn framebuffer to dynamic image")
        }
        other => panic!("dimension mismatch must be an Error, got {:?}", other),
    }
}

#[test]
fn zero_dimension_frame_is_an_error() {
    let paths = rom_a_paths();
    let no_files = FrameFiles { old_file: None, snapshot_file: None };
    let empty_frame = frame_of(Vec::new());
    let classification = process_frame(&empty_frame, &no_files, &paths, 0, 0);
    assert!(classification.new_image.is_none());
    assert!(
        matches!(classification.outcome, TestOutputType::Error(_)),
        "got {:?}",
        classification.outcome
    );
}

#[test]
fn corrupt_snapshot_is_an_error() {
    let paths = rom_a_paths();
    let files = FrameFiles { old_file: None, snapshot_file: Some(vec![1, 2, 3]) };
    let classification = process_frame(&frame_of(pixels_a()), &files, &paths, 2, 2);
    assert!(
        matches!(classification.outcome, TestOutputType::Error(_)),
        "got {:?}",
        classification.outcome
    );
    // The frame is persisted at its `new` location before the snapshot is
    // consulted, so the image is handed back even here.
    assert!(classification.new_image.is_some());
}

#[test]
fn corrupt_old_baseline_is_an_error() {
    let paths = rom_a_paths();
    let files = FrameFiles { old_file: Some(vec![9, 9, 9]), snapshot_file: None };
    let classification = process_frame(&frame_of(pixels_a()), &files, &paths, 2, 2);
    assert!(
        matches!(classification.outcome, TestOutputType::Error(_)),
        "got {:?}",
        classification.outcome
    );
    // The frame itself is well-formed, so its rendered image is still
    // persisted.
    assert!(classification.new_image.is_some());
}

#[test]
fn one_output_per_frame() {
    let candidate = TestCandidate::new("seq".to_owned(), "roms/seq.gb".to_owned(), true);
    let options = test_options();
    let frames = vec![
        FrameOutput { tag: Some("1".to_owned()), frame: RgbaFrame(pixels_a()) },
        FrameOutput { tag: Some("2".to_owned()), frame: RgbaFrame(pixels_b()) },
        FrameOutput { tag: Some("3".to_owned()), frame: RgbaFrame(vec![0; 16]) },
    ];
    let mut files = Vec::new();
    let mut paths = Vec::new();
    for frame in &frames {
        files.push(FrameFiles { old_file: None, snapshot_file: None });
        paths.push(frame_paths(&candidate, &frame.tag, &options));
    }
    let runner_output: RunnerOutput = EmuContext {
        candidate,
        context: RunnerOutputContext { time_taken: 7, frame_output: frames },
    };
    let results = process_candidate(&runner_output, &files, &paths, 2, 2);
    assert_eq!(results.len(), 3);
    for result in &results {
        assert_eq!(result.output.candidate.rom_id, "seq");
        assert_eq!(result.output.context.time_taken, Some(7));
        assert!(matches!(result.output.context.output, TestOutputType::Changed(_)));
    }
    match &results[1].output.context.output {
        TestOutputType::Changed(c) => assert_eq!(c.changed_path, "out/changed/seq/seq_2.png"),
        other => panic!("expected Changed, got {:?}", other),
    }
}
