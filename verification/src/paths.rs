//! Path arithmetic for job files: splitting a path into directory and file
//! name, recognising trigger names, and deriving the sibling paths that mark
//! a job's lifecycle states. Paths are byte strings, as the host filesystem
//! hands them out.

use vstd::prelude::*;

verus! {

/// The path separator byte, `'/'`.
pub const SEPARATOR: u8 = 47;

/// The suffix that marks a pending trigger file: `".ytdl"`.
pub open spec fn ytdl_suffix() -> Seq<u8> {
    seq![46u8, 121u8, 116u8, 100u8, 108u8]
}

/// The suffix appended to a trigger path while its job runs: `".running"`.
pub open spec fn running_suffix() -> Seq<u8> {
    seq![46u8, 114u8, 117u8, 110u8, 110u8, 105u8, 110u8, 103u8]
}

/// The suffix appended to a trigger path when its job failed: `".failed"`.
pub open spec fn failed_suffix() -> Seq<u8> {
    seq![46u8, 102u8, 97u8, 105u8, 108u8, 101u8, 100u8]
}

/// The suffix appended to a trigger path for the failure record:
/// `".diagnostics"`.
pub open spec fn diagnostics_suffix() -> Seq<u8> {
    seq![46u8, 100u8, 105u8, 97u8, 103u8, 110u8, 111u8, 115u8, 116u8, 105u8, 99u8, 115u8]
}

/// `s` ends with the byte sequence `suffix`.
pub open spec fn ends_with(s: Seq<u8>, suffix: Seq<u8>) -> bool {
    suffix.len() <= s.len() && s.subrange(s.len() - suffix.len(), s.len() as int) == suffix
}

/// Index where the file-name portion of `s` begins: just after the last
/// separator, or 0 when `s` holds no separator.
pub open spec fn name_start(s: Seq<u8>) -> int
    decreases s.len(),
{
    if s.len() == 0 {
        0
    } else if s.last() == SEPARATOR {
        s.len() as int
    } else {
        name_start(s.drop_last())
    }
}

/// The file-name portion of `s`: everything after the last separator.
pub open spec fn file_name_spec(s: Seq<u8>) -> Seq<u8> {
    s.subrange(name_start(s), s.len() as int)
}

/// The directory portion of `s`: everything before the last separator, empty
/// when `s` holds none.
pub open spec fn parent_spec(s: Seq<u8>) -> Seq<u8> {
    if name_start(s) == 0 {
        Seq::empty()
    } else {
        s.subrange(0, name_start(s) - 1)
    }
}

/// A path names a pending job exactly when its file name ends in `".ytdl"`.
pub open spec fn is_trigger_path(p: Seq<u8>) -> bool {
    ends_with(file_name_spec(p), ytdl_suffix())
}

/// The running-state sibling of trigger path `p`.
pub open spec fn running_path_spec(p: Seq<u8>) -> Seq<u8> {
    p + running_suffix()
}

/// The failed-state sibling of trigger path `p`.
pub open spec fn failed_path_spec(p: Seq<u8>) -> Seq<u8> {
    p + failed_suffix()
}

/// The diagnostics sibling of trigger path `p`.
pub open spec fn diagnostics_path_spec(p: Seq<u8>) -> Seq<u8> {
    p + diagnostics_suffix()
}

/// The file-name portion of a path begins within the path.
pub proof fn lemma_name_start_bounds(s: Seq<u8>)
    ensures
        0 <= name_start(s) <= s.len(),
    decreases s.len(),
{
    if s.len() == 0 {
    } else if s.last() == SEPARATOR {
    } else {
        lemma_name_start_bounds(s.drop_last());
    }
}

/// The four paths of one job are pairwise distinct: the suffixes all have
/// different, non-zero lengths.
pub proof fn lemma_job_paths_distinct(p: Seq<u8>)
    ensures
        p != running_path_spec(p),
        p != failed_path_spec(p),
        p != diagnostics_path_spec(p),
        running_path_spec(p) != failed_path_spec(p),
        running_path_spec(p) != diagnostics_path_spec(p),
        failed_path_spec(p) != diagnostics_path_spec(p),
{
    assert(running_path_spec(p).len() == p.len() + 8);
    assert(failed_path_spec(p).len() == p.len() + 7);
    assert(diagnostics_path_spec(p).len() == p.len() + 12);
}

/// What the file name ends with, the whole path ends with: the file name is
/// a suffix of the path.
pub proof fn lemma_name_suffix_is_path_suffix(p: Seq<u8>, suffix: Seq<u8>)
    requires
        ends_with(file_name_spec(p), suffix),
    ensures
        ends_with(p, suffix),
{
    lemma_name_start_bounds(p);
    let name = file_name_spec(p);
    assert(p.subrange(p.len() - suffix.len(), p.len() as int) =~= name.subrange(
        name.len() - suffix.len(),
        name.len() as int,
    ));
}

/// Appending one suffix keeps distinct paths distinct.
pub proof fn lemma_append_cancels(x: Seq<u8>, y: Seq<u8>, s: Seq<u8>)
    requires
        x + s == y + s,
    ensures
        x == y,
{
    assert((x + s).len() == x.len() + s.len());
    assert((y + s).len() == y.len() + s.len());
    assert(x.len() == y.len());
    assert(x =~= (x + s).subrange(0, x.len() as int));
    assert(y =~= (y + s).subrange(0, y.len() as int));
}

/// Copy of the bytes of `v` from `start` (inclusive) to `end` (exclusive).
pub fn copy_range(v: &Vec<u8>, start: usize, end: usize) -> (r: Vec<u8>)
    requires
        start <= end <= v.len(),
    ensures
        r@ == v@.subrange(start as int, end as int),
{
    let mut r: Vec<u8> = Vec::new();
    let mut j: usize = start;
    proof {
        assert(r@ =~= v@.subrange(start as int, start as int));
    }
    while j < end
        invariant
            start <= j <= end <= v.len(),
            r@ == v@.subrange(start as int, j as int),
        decreases end - j,
    {
        r.push(v[j]);
        proof {
            assert(v@.subrange(start as int, j + 1 as int) =~= v@.subrange(
                start as int,
                j as int,
            ).push(v@[j as int]));
        }
        j = j + 1;
    }
    r
}

/// Copy of all the bytes of `v`.
pub fn copy_bytes(v: &Vec<u8>) -> (r: Vec<u8>)
    ensures
        r@ == v@,
{
    let r = copy_range(v, 0, v.len());
    proof {
        assert(v@.subrange(0, v@.len() as int) =~= v@);
    }
    r
}

/// The bytes of `base` followed by the bytes of `tail`.
pub fn append_bytes(base: &Vec<u8>, tail: &Vec<u8>) -> (r: Vec<u8>)
    ensures
        r@ == base@ + tail@,
{
    let mut r = copy_bytes(base);
    let mut j: usize = 0;
    proof {
        assert(r@ =~= base@ + tail@.subrange(0, 0));
    }
    while j < tail.len()
        invariant
            j <= tail.len(),
            r@ == base@ + tail@.subrange(0, j as int),
        decreases tail.len() - j,
    {
        r.push(tail[j]);
        proof {
            assert(base@ + tail@.subrange(0, j + 1 as int) =~= (base@ + tail@.subrange(
                0,
                j as int,
            )).push(tail@[j as int]));
        }
        j = j + 1;
    }
    proof {
        assert(tail@.subrange(0, tail@.len() as int) =~= tail@);
    }
    r
}

/// `v` ends with the bytes of `suffix`.
pub fn ends_with_bytes(v: &Vec<u8>, suffix: &Vec<u8>) -> (r: bool)
    ensures
        r == ends_with(v@, suffix@),
{
    let n = v.len();
    let m = suffix.len();
    if m > n {
        return false;
    }
    let mut j: usize = 0;
    while j < m
        invariant
            m <= n,
            n == v@.len(),
            m == suffix@.len(),
            j <= m,
            forall|k: int| 0 <= k < j ==> v@[n - m + k] == suffix@[k],
        decreases m - j,
    {
        if v[n - m + j] != suffix[j] {
            proof {
                if ends_with(v@, suffix@) {
                    assert(v@.subrange(n - m, n as int)[j as int] == v@[n - m + j]);
                }
            }
            return false;
        }
        j = j + 1;
    }
    proof {
        assert(v@.subrange(n - m, n as int) =~= suffix@);
    }
    true
}

/// The trigger suffix `".ytdl"` as bytes.
pub fn ytdl_suffix_bytes() -> (r: Vec<u8>)
    ensures
        r@ == ytdl_suffix(),
{
    let mut r: Vec<u8> = Vec::new();
    r.push(46);
    r.push(121);
    r.push(116);
    r.push(100);
    r.push(108);
    proof {
        assert(r@ =~= ytdl_suffix());
    }
    r
}

/// The running suffix `".running"` as bytes.
pub fn running_suffix_bytes() -> (r: Vec<u8>)
    ensures
        r@ == running_suffix(),
{
    let mut r: Vec<u8> = Vec::new();
    r.push(46);
    r.push(114);
    r.push(117);
    r.push(110);
    r.push(110);
    r.push(105);
    r.push(110);
    r.push(103);
    proof {
        assert(r@ =~= running_suffix());
    }
    r
}

/// The failed suffix `".failed"` as bytes.
pub fn failed_suffix_bytes() -> (r: Vec<u8>)
    ensures
        r@ == failed_suffix(),
{
    let mut r: Vec<u8> = Vec::new();
    r.push(46);
    r.push(102);
    r.push(97);
    r.push(105);
    r.push(108);
    r.push(101);
    r.push(100);
    proof {
        assert(r@ =~= failed_suffix());
    }
    r
}

/// The diagnostics suffix `".diagnostics"` as bytes.
pub fn diagnostics_suffix_bytes() -> (r: Vec<u8>)
    ensures
        r@ == diagnostics_suffix(),
{
    let mut r: Vec<u8> = Vec::new();
    r.push(46);
    r.push(100);
    r.push(105);
    r.push(97);
    r.push(103);
    r.push(110);
    r.push(111);
    r.push(115);
    r.push(116);
    r.push(105);
    r.push(99);
    r.push(115);
    proof {
        assert(r@ =~= diagnostics_suffix());
    }
    r
}

/// Index where the file-name portion of `path` begins.
pub fn name_start_index(path: &Vec<u8>) -> (i: usize)
    ensures
        i == name_start(path@),
{
    let mut i: usize = path.len();
    proof {
        assert(path@.subrange(0, path@.len() as int) =~= path@);
    }
    while i > 0
        invariant
            i <= path@.len(),
            name_start(path@) == name_start(path@.subrange(0, i as int)),
        decreases i,
    {
        if path[i - 1] == SEPARATOR {
            proof {
                let s = path@.subrange(0, i as int);
                assert(s.last() == path@[i - 1]);
            }
            return i;
        }
        proof {
            let s = path@.subrange(0, i as int);
            assert(s.last() == path@[i - 1]);
            assert(s.drop_last() =~= path@.subrange(0, i - 1));
        }
        i = i - 1;
    }
    proof {
        assert(path@.subrange(0, 0) =~= Seq::<u8>::empty());
    }
    0
}

/// The file-name portion of `path`: everything after the last separator.
pub fn file_name_of(path: &Vec<u8>) -> (r: Vec<u8>)
    ensures
        r@ == file_name_spec(path@),
{
    proof {
        lemma_name_start_bounds(path@);
    }
    let i = name_start_index(path);
    copy_range(path, i, path.len())
}

/// The directory portion of `path`: everything before the last separator,
/// empty when there is none.
pub fn parent_of(path: &Vec<u8>) -> (r: Vec<u8>)
    ensures
        r@ == parent_spec(path@),
{
    proof {
        lemma_name_start_bounds(path@);
    }
    let i = name_start_index(path);
    if i == 0 {
        let r: Vec<u8> = Vec::new();
        proof {
            assert(r@ =~= parent_spec(path@));
        }
        r
    } else {
        copy_range(path, 0, i - 1)
    }
}

/// A file name marks a pending job exactly when it ends in `".ytdl"`.
pub fn is_trigger_name(name: &Vec<u8>) -> (r: bool)
    ensures
        r == ends_with(name@, ytdl_suffix()),
{
    let suffix = ytdl_suffix_bytes();
    ends_with_bytes(name, &suffix)
}

/// The running-state sibling of trigger path `path`.
pub fn running_path_of(path: &Vec<u8>) -> (r: Vec<u8>)
    ensures
        r@ == running_path_spec(path@),
{
    let suffix = running_suffix_bytes();
    append_bytes(path, &suffix)
}

/// The failed-state sibling of trigger path `path`.
pub fn failed_path_of(path: &Vec<u8>) -> (r: Vec<u8>)
    ensures
        r@ == failed_path_spec(path@),
{
    let suffix = failed_suffix_bytes();
    append_bytes(path, &suffix)
}

/// The diagnostics sibling of trigger path `path`.
pub fn diagnostics_path_of(path: &Vec<u8>) -> (r: Vec<u8>)
    ensures
        r@ == diagnostics_path_spec(path@),
{
    let suffix = diagnostics_suffix_bytes();
    append_bytes(path, &suffix)
}

} // verus!
