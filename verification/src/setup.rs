//! Derivation of the on-disk layout: the four generation directories under
//! one output root, and the image name and full set of paths for one frame.
//!
//! Every path is a pure function of the candidate id, the frame tag and the
//! configured roots, so concurrent classification of distinct candidates can
//! never collide on an output path.

use vstd::prelude::*;
use vstd::string::StringExecFns;

use crate::inputs::TestCandidate;
use crate::options::EmuRunnerOptions;

verus! {

/// The image file name for one frame: the candidate id, the frame tag (for
/// sequence tests) and a `.png` extension.
pub open spec fn png_name_of(rom_id: Seq<char>, tag: Option<Seq<char>>) -> Seq<char> {
    match tag {
        Some(t) => rom_id + "_"@ + t + ".png"@,
        None => rom_id + ".png"@,
    }
}

/// The path of one frame's image relative to a generation directory: nested
/// under a per-candidate folder when a sequence test asks for it.
pub open spec fn path_suffix_of(rom_id: Seq<char>, tag: Option<Seq<char>>, nested: bool) -> Seq<
    char,
> {
    if nested {
        rom_id + "/"@ + png_name_of(rom_id, tag)
    } else {
        png_name_of(rom_id, tag)
    }
}

/// `base/name`, with a single separator between the two.
pub open spec fn joined(base: Seq<char>, name: Seq<char>) -> Seq<char> {
    base + "/"@ + name
}

/// The directory holding the previous run's rendered output.
pub fn old_path(output: &str) -> (r: String)
    ensures
        r@ == output@ + "/old"@,
{
    String::from_str(output).concat("/old")
}

/// The directory holding the current run's rendered output.
pub fn new_path(output: &str) -> (r: String)
    ensures
        r@ == output@ + "/new"@,
{
    String::from_str(output).concat("/new")
}

/// The directory holding frames that differed from the previous generation.
pub fn changed_path(output: &str) -> (r: String)
    ensures
        r@ == output@ + "/changed"@,
{
    String::from_str(output).concat("/changed")
}

/// The directory holding frames that differed from their golden snapshot.
pub fn failures_path(output: &str) -> (r: String)
    ensures
        r@ == output@ + "/failures"@,
{
    String::from_str(output).concat("/failures")
}

/// The image file name for a candidate id, with an optional frame tag for
/// sequence tests.
pub fn rom_id_to_png(rom_id: &str, suffix: Option<&str>) -> (r: String)
    ensures
        r@ == png_name_of(
            rom_id@,
            match suffix {
                Some(s) => Some(s@),
                None => None,
            },
        ),
{
    match suffix {
        Some(s) => String::from_str(rom_id).concat("_").concat(s).concat(".png"),
        None => String::from_str(rom_id).concat(".png"),
    }
}

/// The full set of paths one frame's classification needs, each derived
/// deterministically from the candidate id, the frame tag and the configured
/// roots.
pub struct FramePaths {
    pub new_path: String,
    pub old_path: String,
    pub changed_path: String,
    pub failure_path: String,
    pub snapshot_path: String,
}

/// Derive every path for one frame of `candidate`.
///
/// The frame lands under a per-candidate subfolder exactly when the candidate
/// is a sequence test and the options ask for nesting.
pub fn frame_paths(candidate: &TestCandidate, tag: &Option<String>, options: &EmuRunnerOptions) -> (
    r: FramePaths)
    ensures
        ({
            let sfx = path_suffix_of(
                candidate.rom_id@,
                match tag {
                    Some(t) => Some(t@),
                    None => None,
                },
                candidate.is_sequence_test && options.put_sequence_tests_in_subfolder,
            );
            &&& r.new_path@ == joined(options.output_path@ + "/new"@, sfx)
            &&& r.old_path@ == joined(options.output_path@ + "/old"@, sfx)
            &&& r.changed_path@ == joined(options.output_path@ + "/changed"@, sfx)
            &&& r.failure_path@ == joined(options.output_path@ + "/failures"@, sfx)
            &&& r.snapshot_path@ == joined(options.snapshot_path@, sfx)
        }),
{
    let name = match tag {
        Some(t) => rom_id_to_png(candidate.rom_id.as_str(), Some(t.as_str())),
        None => rom_id_to_png(candidate.rom_id.as_str(), None),
    };
    let sfx = if candidate.is_sequence_test && options.put_sequence_tests_in_subfolder {
        String::from_str(candidate.rom_id.as_str()).concat("/").concat(name.as_str())
    } else {
        name
    };
    FramePaths {
        new_path: new_path(options.output_path.as_str()).concat("/").concat(sfx.as_str()),
        old_path: old_path(options.output_path.as_str()).concat("/").concat(sfx.as_str()),
        changed_path: changed_path(options.output_path.as_str()).concat("/").concat(sfx.as_str()),
        failure_path: failures_path(options.output_path.as_str()).concat("/").concat(sfx.as_str()),
        snapshot_path: String::from_str(options.snapshot_path.as_str()).concat("/").concat(
            sfx.as_str(),
        ),
    }
}

} // verus!
