use emu_test_runner::inputs::get_rom_fs_id;
use emu_test_runner::inputs::TestCandidate;

#[test]
fn candidate_new_keeps_fields() {
    let candidate = TestCandidate::new("mario".to_owned(), "roms/mario.gb".to_owned(), true);
    assert_eq!(candidate.rom_id, "mario");
    assert_eq!(candidate.rom_path, "roms/mario.gb");
    assert!(candidate.is_sequence_test);
}

#[test]
fn rom_id_strips_directory_and_extension() {
    assert_eq!(get_rom_fs_id("roms/mario.gb"), "mario");
}

#[test]
fn rom_id_keeps_inner_dots() {
    assert_eq!(get_rom_fs_id("a/b/c.tar.gz"), "c.tar");
}

#[test]
fn rom_id_of_hidden_file_is_whole_name() {
    assert_eq!(get_rom_fs_id(".hidden"), ".hidden");
}

#[test]
fn rom_id_without_extension() {
    assert_eq!(get_rom_fs_id("noext"), "noext");
}

#[test]
fn rom_id_ignores_dots_in_directories() {
    assert_eq!(get_rom_fs_id("dir.d/file"), "file");
}

#[test]
fn find_all_filters_by_extension() {
    let files = vec![
        "roms/mario.gb".to_owned(),
        "roms/readme.txt".to_owned(),
        "roms/deep/zelda.gb".to_owned(),
        "notes.gb.bak".to_owned(),
    ];
    let found = TestCandidate::find_all_in_directory(&files, ".gb");
    assert_eq!(found.len(), 2);
    assert_eq!(found[0].rom_id, "mario");
    assert_eq!(found[0].rom_path, "roms/mario.gb");
    assert!(!found[0].is_sequence_test);
    assert_eq!(found[1].rom_id, "zelda");
    assert_eq!(found[1].rom_path, "roms/deep/zelda.gb");
    assert!(!found[1].is_sequence_test);
}

#[test]
fn find_all_on_empty_listing() {
    let files: Vec<String> = Vec::new();
    let found = TestCandidate::find_all_in_directory(&files, ".gb");
    assert!(found.is_empty());
}
