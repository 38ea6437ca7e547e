use vstd::prelude::*;
use crate::errors::RunError;

verus! {

/// The path separator byte, `/`.
pub const SEPARATOR: u8 = 47;

/// The extension separator byte, `.`.
pub const DOT: u8 = 46;

/// The container extension appended to every derived output path: `.wav`.
pub open spec fn wav_suffix() -> Seq<u8> {
    seq![DOT, 119u8, 97u8, 118u8]
}

/// Index of the last occurrence of `c` in `s`, or `-1` when `s` has none.
pub open spec fn last_pos(s: Seq<u8>, c: u8) -> int
    decreases s.len(),
{
    if s.len() == 0 {
        -1
    } else if s.last() == c {
        s.len() - 1
    } else {
        last_pos(s.drop_last(), c)
    }
}

/// The base name of a path: everything after its last separator, or the
/// whole path when it has none.
pub open spec fn base_name(p: Seq<u8>) -> Seq<u8> {
    p.subrange(last_pos(p, SEPARATOR) + 1, p.len() as int)
}

/// The stem of a file name: the part before its last dot. A name without a
/// dot, and a name whose only dot leads it, are their own stem.
pub open spec fn stem_of(name: Seq<u8>) -> Seq<u8> {
    if last_pos(name, DOT) <= 0 {
        name
    } else {
        name.subrange(0, last_pos(name, DOT))
    }
}

/// A path with a separator at its end, ready for a name to be joined on:
/// an empty root and a root already ending in a separator stay as they are.
pub open spec fn joined_root(root: Seq<u8>) -> Seq<u8> {
    if root.len() == 0 || root.last() == SEPARATOR {
        root
    } else {
        root + seq![SEPARATOR]
    }
}

/// Where a file inside a converted directory is written: the input's stem,
/// with the container extension, directly under the output root.
pub open spec fn planned_output(input: Seq<u8>, root: Seq<u8>) -> Seq<u8> {
    joined_root(root) + stem_of(base_name(input)) + wav_suffix()
}

/// What `last_pos` returns is an index of `c` with none after it, or `-1`
/// when `c` does not occur at all.
pub proof fn lemma_last_pos(s: Seq<u8>, c: u8)
    ensures
        -1 <= last_pos(s, c) < s.len(),
        last_pos(s, c) >= 0 ==> s[last_pos(s, c)] == c,
        forall|j: int| last_pos(s, c) < j < s.len() ==> s[j] != c,
    decreases s.len(),
{
    if s.len() > 0 && s.last() != c {
        lemma_last_pos(s.drop_last(), c);
        assert forall|j: int| last_pos(s, c) < j < s.len() implies s[j] != c by {
            if j == s.len() - 1 {
                assert(s[j] == s.last());
            } else {
                assert(s.drop_last()[j] != c);
                assert(s.drop_last()[j] == s[j]);
            }
        }
    }
}

/// An index of `c` with no occurrence after it is the last one.
pub proof fn lemma_last_pos_found(s: Seq<u8>, c: u8, i: int)
    requires
        0 <= i < s.len(),
        s[i] == c,
        forall|j: int| i < j < s.len() ==> s[j] != c,
    ensures
        last_pos(s, c) == i,
{
    lemma_last_pos(s, c);
    if last_pos(s, c) < i {
        assert(s[i] != c);
    }
    if last_pos(s, c) > i {
        assert(s[last_pos(s, c)] != c);
    }
}

/// When `c` occurs nowhere in `s`, `last_pos` reports so.
pub proof fn lemma_last_pos_absent(s: Seq<u8>, c: u8)
    requires
        forall|j: int| 0 <= j < s.len() ==> s[j] != c,
    ensures
        last_pos(s, c) == -1,
{
    lemma_last_pos(s, c);
    if last_pos(s, c) >= 0 {
        assert(s[last_pos(s, c)] != c);
    }
}

/// Finds the last occurrence of `c` in `p`.
fn scan_last(p: &Vec<u8>, c: u8) -> (found: Option<usize>)
    ensures
        match found {
            Some(i) => i < p@.len() && last_pos(p@, c) == i,
            None => last_pos(p@, c) == -1,
        },
{
    let mut k: usize = p.len();
    while k > 0
        invariant
            k <= p@.len(),
            forall|j: int| k <= j < p@.len() ==> p@[j] != c,
        decreases k,
    {
        k = k - 1;
        if p[k] == c {
            proof {
                lemma_last_pos_found(p@, c, k as int);
            }
            return Some(k);
        }
    }
    proof {
        lemma_last_pos_absent(p@, c);
    }
    None
}

/// Copies `v[from..to]` into a fresh vector.
pub(crate) fn copy_range(v: &Vec<u8>, from: usize, to: usize) -> (out: Vec<u8>)
    requires
        from <= to <= v@.len(),
    ensures
        out@ == v@.subrange(from as int, to as int),
{
    let mut out: Vec<u8> = Vec::new();
    let mut k: usize = from;
    while k < to
        invariant
            from <= k <= to <= v@.len(),
            out@.len() == k - from,
            forall|j: int| 0 <= j < out@.len() ==> out@[j] == v@[from + j],
        decreases to - k,
    {
        out.push(v[k]);
        k = k + 1;
    }
    proof {
        assert(out@ =~= v@.subrange(from as int, to as int));
    }
    out
}

/// Appends all of `src` to `dst`.
fn push_all(dst: &mut Vec<u8>, src: &Vec<u8>)
    ensures
        final(dst)@ == old(dst)@ + src@,
{
    let mut k: usize = 0;
    while k < src.len()
        invariant
            k <= src@.len(),
            dst@ == old(dst)@ + src@.subrange(0, k as int),
        decreases src@.len() - k,
    {
        proof {
            assert(old(dst)@ + src@.subrange(0, k as int + 1) =~= (old(dst)@ + src@.subrange(
                0,
                k as int,
            )).push(src@[k as int]));
        }
        dst.push(src[k]);
        k = k + 1;
    }
    proof {
        assert(src@.subrange(0, src@.len() as int) =~= src@);
    }
}

/// Whether two byte strings are equal.
pub fn bytes_eq(a: &Vec<u8>, b: &Vec<u8>) -> (eq: bool)
    ensures
        eq == (a@ == b@),
{
    if a.len() != b.len() {
        return false;
    }
    let mut k: usize = 0;
    while k < a.len()
        invariant
            k <= a@.len(),
            a@.len() == b@.len(),
            forall|j: int| 0 <= j < k ==> a@[j] == b@[j],
        decreases a@.len() - k,
    {
        if a[k] != b[k] {
            return false;
        }
        k = k + 1;
    }
    proof {
        assert(a@ =~= b@);
    }
    true
}

/// Derives the output path for one input file converted into a directory
/// run: the stem of the input's base name, with the container extension,
/// joined under the output root.
pub fn derive_output_path(input_path: &Vec<u8>, output_root: &Vec<u8>) -> (out: Vec<u8>)
    ensures
        out@ == planned_output(input_path@, output_root@),
{
    let n: usize = input_path.len();
    let base_start: usize = match scan_last(input_path, SEPARATOR) {
        Some(i) => i + 1,
        None => 0,
    };
    let base = copy_range(input_path, base_start, n);
    proof {
        assert(base@ =~= base_name(input_path@));
    }
    let stem_end: usize = match scan_last(&base, DOT) {
        Some(d) => if d > 0 {
            d
        } else {
            base.len()
        },
        None => base.len(),
    };
    let stem = copy_range(&base, 0, stem_end);
    proof {
        assert(stem@ =~= stem_of(base@));
    }
    let mut out = copy_range(output_root, 0, output_root.len());
    proof {
        assert(out@ =~= output_root@);
    }
    if output_root.len() > 0 && output_root[output_root.len() - 1] != SEPARATOR {
        out.push(SEPARATOR);
    }
    proof {
        assert(out@ =~= joined_root(output_root@));
    }
    push_all(&mut out, &stem);
    out.push(DOT);
    out.push(119);
    out.push(97);
    out.push(118);
    proof {
        assert(out@ =~= planned_output(input_path@, output_root@));
    }
    out
}

/// How an input/output path pair stands: the same path, a file against a
/// directory, or a consistent directory or single-file run.
#[derive(Clone, Copy, Debug, PartialEq, Eq, Structural)]
pub enum PathClass {
    Identical,
    TypeMismatch,
    Directory,
    File,
}

/// A pair is in conflict when the paths are the same, or when one side is a
/// file and the other a directory.
pub open spec fn config_conflict(
    input: Seq<u8>,
    output: Seq<u8>,
    input_is_dir: bool,
    output_is_dir: bool,
    output_is_file: bool,
) -> bool {
    input == output || (input_is_dir && output_is_file) || (!input_is_dir && output_is_dir)
}

/// What `classify` returns for every pair.
pub open spec fn spec_classify(
    input: Seq<u8>,
    output: Seq<u8>,
    input_is_dir: bool,
    output_is_dir: bool,
    output_is_file: bool,
) -> PathClass {
    if input == output {
        PathClass::Identical
    } else if (input_is_dir && output_is_file) || (!input_is_dir && output_is_dir) {
        PathClass::TypeMismatch
    } else if input_is_dir {
        PathClass::Directory
    } else {
        PathClass::File
    }
}

/// Classifies an input/output pair. The paths are compared as given; the
/// flags say what the filesystem reports for each side (both output flags
/// false when the output does not exist yet).
pub fn classify(
    input: &Vec<u8>,
    output: &Vec<u8>,
    input_is_dir: bool,
    output_is_dir: bool,
    output_is_file: bool,
) -> (class: PathClass)
    ensures
        class == spec_classify(input@, output@, input_is_dir, output_is_dir, output_is_file),
{
    if bytes_eq(input, output) {
        PathClass::Identical
    } else if (input_is_dir && output_is_file) || (!input_is_dir && output_is_dir) {
        PathClass::TypeMismatch
    } else if input_is_dir {
        PathClass::Directory
    } else {
        PathClass::File
    }
}

/// Decides whether a run may start at all. A conflicting pair — identical
/// paths, or a file against a directory — is refused as an invalid
/// configuration before any traversal; every other pair is a directory run
/// or a single-file run.
pub fn validate_config(
    input: &Vec<u8>,
    output: &Vec<u8>,
    input_is_dir: bool,
    output_is_dir: bool,
    output_is_file: bool,
) -> (decision: Result<PathClass, RunError>)
    ensures
        decision == if config_conflict(input@, output@, input_is_dir, output_is_dir, output_is_file) {
            Err::<PathClass, RunError>(RunError::InvalidConfiguration)
        } else {
            Ok::<PathClass, RunError>(
                spec_classify(input@, output@, input_is_dir, output_is_dir, output_is_file),
            )
        },
        decision matches Ok(class) ==> (class is Directory || class is File),
{
    match classify(input, output, input_is_dir, output_is_dir, output_is_file) {
        PathClass::Identical => Err(RunError::InvalidConfiguration),
        PathClass::TypeMismatch => Err(RunError::InvalidConfiguration),
        PathClass::Directory => Ok(PathClass::Directory),
        PathClass::File => Ok(PathClass::File),
    }
}

} // verus!
