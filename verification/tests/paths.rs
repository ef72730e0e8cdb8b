use emu_test_runner::inputs::TestCandidate;
use emu_test_runner::options::EmuRunnerOptions;
use emu_test_runner::setup::frame_paths;
use emu_test_runner::setup::changed_path;
use emu_test_runner::setup::failures_path;
use emu_test_runner::setup::new_path;
use emu_test_runner::setup::old_path;
use emu_test_runner::setup::rom_id_to_png;
use emu_test_runner::OutputDestinations;

fn options_with_roots(output: &str, snapshot: &str) -> EmuRunnerOptions {
    let mut options = EmuRunnerOptions::default();
    options.output_path = output.to_owned();
    options.snapshot_path = snapshot.to_owned();
    options.expected_frame_width = 2;
    options.expected_frame_height = 2;
    options
}

#[test]
fn generation_paths() {
    assert_eq!(old_path("out"), "out/old");
    assert_eq!(new_path("out"), "out/new");
    assert_eq!(changed_path("out"), "out/changed");
    assert_eq!(failures_path("out"), "out/failures");
}

#[test]
fn png_name_without_tag() {
    assert_eq!(rom_id_to_png("mario", None), "mario.png");
}

#[test]
fn png_name_with_tag() {
    assert_eq!(rom_id_to_png("mario", Some("frame2")), "mario_frame2.png");
}

#[test]
fn frame_paths_flat() {
    let candidate = TestCandidate::new("mario".to_owned(), "roms/mario.gb".to_owned(), false);
    let options = options_with_roots("out", "snaps");
    let paths = frame_paths(&candidate, &None, &options);
    assert_eq!(paths.new_path, "out/new/mario.png");
    assert_eq!(paths.old_path, "out/old/mario.png");
    assert_eq!(paths.changed_path, "out/changed/mario.png");
    assert_eq!(paths.failure_path, "out/failures/mario.png");
    assert_eq!(paths.snapshot_path, "snaps/mario.png");
}

#[test]
fn frame_paths_nested_sequence() {
    let candidate = TestCandidate::new("mario".to_owned(), "roms/mario.gb".to_owned(), true);
    let options = options_with_roots("out", "snaps");
    let paths = frame_paths(&candidate, &Some("2".to_owned()), &options);
    assert_eq!(paths.new_path, "out/new/mario/mario_2.png");
    assert_eq!(paths.old_path, "out/old/mario/mario_2.png");
    assert_eq!(paths.snapshot_path, "snaps/mario/mario_2.png");
}

#[test]
fn frame_paths_sequence_without_nesting() {
    let candidate = TestCandidate::new("mario".to_owned(), "roms/mario.gb".to_owned(), true);
    let mut options = options_with_roots("out", "snaps");
    options.put_sequence_tests_in_subfolder = false;
    let paths = frame_paths(&candidate, &Some("2".to_owned()), &options);
    assert_eq!(paths.new_path, "out/new/mario_2.png");
}

#[test]
fn output_destinations_to_path() {
    assert_eq!(OutputDestinations::Old.to_path("out"), Some("out/old".to_owned()));
    assert_eq!(OutputDestinations::New.to_path("out"), Some("out/new".to_owned()));
    assert_eq!(OutputDestinations::Failures.to_path("out"), Some("out/failures".to_owned()));
    assert_eq!(OutputDestinations::Changed.to_path("out"), Some("out/changed".to_owned()));
    let data = [1u8, 2u8];
    assert_eq!(OutputDestinations::InMemory(&data).to_path("out"), None);
}

#[test]
fn default_options_values() {
    let options = EmuRunnerOptions::default();
    assert_eq!(options.output_path, "./test_output");
    assert_eq!(options.snapshot_path, "./test_roms/expected");
    assert!(options.num_threads >= 1);
    assert_eq!(options.expected_frame_width, 240);
    assert_eq!(options.expected_frame_height, 160);
    assert!(options.put_sequence_tests_in_subfolder);
    assert!(options.copy_comparison_image);
    assert_eq!(options.timeout, Some(15000));
}
