//! The candidate model: one configured test unit, and the derivation of a
//! stable candidate id from a payload file's base name.

use vstd::prelude::*;
use vstd::string::StrSliceExecFns;
use vstd::string::StringExecFns;

verus! {

/// The index of the last occurrence of `c` in `s`, or `-1` when `s` does not
/// contain it.
pub open spec fn last_index_of(s: Seq<char>, c: char) -> int
    decreases s.len(),
{
    if s.len() == 0 {
        -1
    } else if s.last() == c {
        s.len() - 1
    } else {
        last_index_of(s.drop_last(), c)
    }
}

/// The base name of a path: everything after the last `/`, or the whole path
/// when it has no separator.
pub open spec fn file_name_of(path: Seq<char>) -> Seq<char> {
    path.subrange(last_index_of(path, '/') + 1, path.len() as int)
}

/// The stem of a path's base name: everything before the last `.`, except
/// that a leading `.` (a hidden file) does not begin an extension.
pub open spec fn rom_stem_of(path: Seq<char>) -> Seq<char> {
    let name = file_name_of(path);
    let dot = last_index_of(name, '.');
    if dot <= 0 {
        name
    } else {
        name.subrange(0, dot)
    }
}

/// Whether a path has a base name a stem can be derived from: nonempty and
/// not a parent-directory reference.
pub open spec fn has_file_stem(path: Seq<char>) -> bool {
    file_name_of(path).len() > 0 && file_name_of(path) != seq!['.', '.']
}

/// Whether `s` ends with `suffix`.
pub open spec fn ends_with(s: Seq<char>, suffix: Seq<char>) -> bool {
    suffix.len() <= s.len() && s.subrange(s.len() - suffix.len(), s.len() as int) == suffix
}

/// The paths of `files` that end with `extension`, in order.
pub open spec fn matching_paths(files: Seq<Seq<char>>, extension: Seq<char>) -> Seq<Seq<char>>
    decreases files.len(),
{
    if files.len() == 0 {
        Seq::empty()
    } else {
        let rest = matching_paths(files.drop_last(), extension);
        if ends_with(files.last(), extension) {
            rest.push(files.last())
        } else {
            rest
        }
    }
}

/// The views of a sequence of strings.
pub open spec fn str_views(files: Seq<String>) -> Seq<Seq<char>> {
    files.map_values(|f: String| f@)
}

proof fn lemma_last_index_of_bounds(s: Seq<char>, c: char)
    ensures
        -1 <= last_index_of(s, c) < s.len(),
        last_index_of(s, c) >= 0 ==> s[last_index_of(s, c)] == c,
    decreases s.len(),
{
    if s.len() > 0 && s.last() != c {
        lemma_last_index_of_bounds(s.drop_last(), c);
    }
}

proof fn lemma_last_index_of_untouched_by_tail(s: Seq<char>, c: char, i: int)
    requires
        0 <= i <= s.len(),
        forall|k: int| i <= k < s.len() ==> s[k] != c,
    ensures
        last_index_of(s, c) == last_index_of(s.take(i), c),
    decreases s.len() - i,
{
    if i < s.len() {
        assert(s.drop_last() =~= s.take(s.len() - 1));
        assert(s.drop_last().take(i) =~= s.take(i));
        lemma_last_index_of_untouched_by_tail(s.drop_last(), c, i);
    } else {
        assert(s.take(i) =~= s);
    }
}

/// The index of the last occurrence of `c` in `s`, if any.
fn last_char_index(s: &str, c: char) -> (r: Option<usize>)
    ensures
        match r {
            Some(i) => last_index_of(s@, c) == i as int,
            None => last_index_of(s@, c) == -1,
        },
{
    let n = s.unicode_len();
    let mut i: usize = n;
    while i > 0
        invariant
            i <= n,
            n == s@.len(),
            forall|k: int| i <= k < n ==> s@[k] != c,
        decreases i,
    {
        if s.get_char(i - 1) == c {
            proof {
                lemma_last_index_of_untouched_by_tail(s@, c, i as int);
                assert(s@.take(i as int).last() == s@[i - 1]);
            }
            return Some(i - 1);
        }
        i = i - 1;
    }
    proof {
        lemma_last_index_of_untouched_by_tail(s@, c, 0);
        assert(s@.take(0).len() == 0);
    }
    None
}

/// Whether `s` ends with `suffix`, character for character.
fn ends_with_str(s: &str, suffix: &str) -> (r: bool)
    ensures
        r == ends_with(s@, suffix@),
{
    let n = s.unicode_len();
    let m = suffix.unicode_len();
    if m > n {
        return false;
    }
    let mut i: usize = 0;
    while i < m
        invariant
            i <= m,
            m <= n,
            n == s@.len(),
            m == suffix@.len(),
            forall|k: int| 0 <= k < i ==> s@[n - m + k] == suffix@[k],
        decreases m - i,
    {
        if s.get_char(n - m + i) != suffix.get_char(i) {
            proof {
                assert(s@.subrange(n - m, n as int)[i as int] == s@[n - m + i]);
            }
            return false;
        }
        i = i + 1;
    }
    proof {
        assert(s@.subrange(n - m, n as int) =~= suffix@);
    }
    true
}

/// Derive a candidate id from a payload path: the base name with its
/// extension removed.
pub fn get_rom_fs_id(path: &str) -> (r: String)
    requires
        has_file_stem(path@),
    ensures
        r@ == rom_stem_of(path@),
{
    proof {
        lemma_last_index_of_bounds(path@, '/');
    }
    let n = path.unicode_len();
    let start: usize = match last_char_index(path, '/') {
        Some(i) => i + 1,
        None => 0,
    };
    let name = path.substring_char(start, n);
    proof {
        assert(name@ == file_name_of(path@));
        lemma_last_index_of_bounds(name@, '.');
    }
    match last_char_index(name, '.') {
        Some(dot) => if dot > 0 {
            String::from_str(name.substring_char(0, dot))
        } else {
            String::from_str(name)
        },
        None => String::from_str(name),
    }
}

/// One configured test: a unique, stable id, the path of the payload to load,
/// and whether the run is expected to produce more than one frame.
#[derive(Debug, Clone)]
pub struct TestCandidate {
    pub rom_id: String,
    pub rom_path: String,
    pub is_sequence_test: bool,
}

impl TestCandidate {
    /// Create a new test candidate.
    ///
    /// `id` should be unique, and the path should point to a payload that the
    /// run callback can load.  `is_sequence_test` should be `true` if this
    /// test case will produce multiple frames, each compared individually.
    pub fn new(id: String, path: String, is_sequence_test: bool) -> (c: TestCandidate)
        ensures
            c.rom_id == id,
            c.rom_path == path,
            c.is_sequence_test == is_sequence_test,
    {
        TestCandidate { rom_id: id, rom_path: path, is_sequence_test }
    }

    /// Build one candidate per file whose path ends with `extension`, with a
    /// stable id derived from the file's base name, in order.
    ///
    /// `files` is the file listing of a directory tree, as the surrounding
    /// discovery step produced it.  None of the candidates is marked as a
    /// sequence test.
    pub fn find_all_in_directory(files: &Vec<String>, extension: &str) -> (r: Vec<TestCandidate>)
        requires
            forall|i: int|
                0 <= i < files@.len() && #[trigger] ends_with(files@[i]@, extension@)
                    ==> has_file_stem(files@[i]@),
        ensures
            ({
                let m = matching_paths(str_views(files@), extension@);
                &&& r@.len() == m.len()
                &&& forall|j: int|
                    0 <= j < r@.len() ==> {
                        &&& (#[trigger] r@[j]).rom_path@ == m[j]
                        &&& r@[j].rom_id@ == rom_stem_of(m[j])
                        &&& !r@[j].is_sequence_test
                    }
            }),
    {
        let mut out: Vec<TestCandidate> = Vec::new();
        let mut i: usize = 0;
        while i < files.len()
            invariant
                i <= files@.len(),
                forall|k: int|
                    0 <= k < files@.len() && #[trigger] ends_with(files@[k]@, extension@)
                        ==> has_file_stem(files@[k]@),
                ({
                    let m = matching_paths(str_views(files@).take(i as int), extension@);
                    &&& out@.len() == m.len()
                    &&& forall|j: int|
                        0 <= j < out@.len() ==> {
                            &&& (#[trigger] out@[j]).rom_path@ == m[j]
                            &&& out@[j].rom_id@ == rom_stem_of(m[j])
                            &&& !out@[j].is_sequence_test
                        }
                }),
            decreases files@.len() - i,
        {
            let f = &files[i];
            proof {
                assert(str_views(files@).take(i + 1).drop_last() =~= str_views(files@).take(
                    i as int,
                ));
                assert(str_views(files@).take(i + 1).last() == files@[i as int]@);
            }
            if ends_with_str(f.as_str(), extension) {
                let id = get_rom_fs_id(f.as_str());
                out.push(TestCandidate::new(id, f.clone(), false));
            }
            i = i + 1;
        }
        proof {
            assert(str_views(files@).take(files@.len() as int) =~= str_views(files@));
        }
        out
    }

    /// An exact copy of this candidate.
    pub fn duplicate(&self) -> (c: TestCandidate)
        ensures
            c == *self,
    {
        TestCandidate {
            rom_id: self.rom_id.clone(),
            rom_path: self.rom_path.clone(),
            is_sequence_test: self.is_sequence_test,
        }
    }
}

} // verus!
