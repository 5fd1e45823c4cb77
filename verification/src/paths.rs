//! Payload path handling: bitness-driven selection, stripping of the
//! long-path prefix, and the NUL-terminated byte image that is staged inside
//! the target.

use vstd::prelude::*;

verus! {

/// The long-path prefix `\\?\` as bytes.
pub open spec fn long_path_prefix() -> Seq<u8> {
    seq![92u8, 92u8, 63u8, 92u8]
}

/// Whether `path` carries the long-path prefix.
pub open spec fn has_long_path_prefix(path: Seq<u8>) -> bool {
    path.len() >= 4 && path.subrange(0, 4) == long_path_prefix()
}

/// `path` with one leading long-path prefix removed.
pub open spec fn spec_strip_prefix(path: Seq<u8>) -> Seq<u8> {
    if has_long_path_prefix(path) {
        path.subrange(4, path.len() as int)
    } else {
        path
    }
}

/// Remove the long-path prefix `\\?\` from the front of `path`, if present.
/// Canonicalization may add it; the bytes staged in the target never carry it.
pub fn strip_long_path_prefix(path: &Vec<u8>) -> (r: Vec<u8>)
    ensures
        r@ == spec_strip_prefix(path@),
{
    let prefixed: bool = path.len() >= 4 && path[0] == 92 && path[1] == 92 && path[2] == 63
        && path[3] == 92;
    if prefixed {
        assert(path@.subrange(0, 4) =~= long_path_prefix());
        let mut r: Vec<u8> = Vec::new();
        let mut i: usize = 4;
        while i < path.len()
            invariant
                4 <= i <= path@.len(),
                r@ == path@.subrange(4, i as int),
            decreases path.len() - i,
        {
            r.push(path[i]);
            assert(r@ =~= path@.subrange(4, i + 1));
            i = i + 1;
        }
        r
    } else {
        assert(!has_long_path_prefix(path@)) by {
            if path@.len() >= 4 && path@.subrange(0, 4) == long_path_prefix() {
                assert(path@[0] == 92 && path@[1] == 92 && path@[2] == 63 && path@[3] == 92) by {
                    assert(path@.subrange(0, 4)[0] == 92);
                    assert(path@.subrange(0, 4)[1] == 92);
                    assert(path@.subrange(0, 4)[2] == 63);
                    assert(path@.subrange(0, 4)[3] == 92);
                }
            }
        }
        let mut r: Vec<u8> = Vec::new();
        let mut i: usize = 0;
        while i < path.len()
            invariant
                i <= path@.len(),
                r@ == path@.subrange(0, i as int),
            decreases path.len() - i,
        {
            r.push(path[i]);
            assert(r@ =~= path@.subrange(0, i + 1));
            i = i + 1;
        }
        assert(r@ =~= path@);
        r
    }
}

/// Path normalization is insensitive to the long-path prefix: for a path that
/// does not itself carry the prefix, prefixing it and stripping yields the
/// same bytes as stripping the bare path.
pub proof fn lemma_strip_prefix_normalizes(path: Seq<u8>)
    requires
        !has_long_path_prefix(path),
    ensures
        spec_strip_prefix(long_path_prefix() + path) == spec_strip_prefix(path),
{
    let p = long_path_prefix() + path;
    assert(p.subrange(0, 4) =~= long_path_prefix());
    assert(p.subrange(4, p.len() as int) =~= path);
}

/// The exact byte image staged in the target: the path bytes followed by one
/// terminating NUL.
pub open spec fn spec_with_nul(path: Seq<u8>) -> Seq<u8> {
    path.push(0)
}

/// Append the terminating NUL; the buffer allocated in the target has exactly
/// this many bytes.
pub fn path_with_nul(path: &Vec<u8>) -> (r: Option<Vec<u8>>)
    ensures
        r is Some <==> path@.len() < usize::MAX,
        r is Some ==> r->0@ == spec_with_nul(path@),
{
    if path.len() < usize::MAX {
        let mut r: Vec<u8> = Vec::new();
        let mut i: usize = 0;
        while i < path.len()
            invariant
                i <= path@.len(),
                path@.len() < usize::MAX,
                r@ == path@.subrange(0, i as int),
            decreases path.len() - i,
        {
            r.push(path[i]);
            assert(r@ =~= path@.subrange(0, i + 1));
            i = i + 1;
        }
        assert(r@ =~= path@);
        r.push(0);
        Some(r)
    } else {
        None
    }
}

/// Whether byte `b` is a path separator.
pub open spec fn is_sep(b: u8) -> bool {
    b == 92 || b == 47
}

/// Index just past the last path separator of `s`, or 0 when none occurs.
pub open spec fn file_name_start(s: Seq<u8>) -> int
    decreases s.len(),
{
    if s.len() == 0 {
        0
    } else if is_sep(s[s.len() - 1]) {
        s.len() as int
    } else {
        file_name_start(s.drop_last())
    }
}

/// The file name of a path: the bytes after the last separator.
pub open spec fn spec_file_name(s: Seq<u8>) -> Seq<u8> {
    s.subrange(file_name_start(s), s.len() as int)
}

/// A downward scan that stopped at a separator (or at the front) has found
/// where the file name starts.
proof fn lemma_file_name_start_from_scan(s: Seq<u8>, start: int)
    requires
        0 <= start <= s.len(),
        forall|k: int| start <= k < s.len() ==> !is_sep(s[k]),
        start > 0 ==> is_sep(s[start - 1]),
    ensures
        file_name_start(s) == start,
    decreases s.len(),
{
    if s.len() == 0 {
    } else if is_sep(s[s.len() - 1]) {
        assert(start == s.len());
    } else {
        assert(start < s.len());
        assert(forall|k: int|
            start <= k < s.drop_last().len() ==> !is_sep(s.drop_last()[k]));
        assert(start > 0 ==> is_sep(s.drop_last()[start - 1]));
        lemma_file_name_start_from_scan(s.drop_last(), start);
    }
}

/// Extract the file name of `path`: what follows the last `\\` or `/`, or the
/// whole path when it has no separator.
pub fn file_name_of(path: &Vec<u8>) -> (r: Vec<u8>)
    ensures
        r@ == spec_file_name(path@),
{
    let mut start: usize = path.len();
    loop
        invariant
            start <= path@.len(),
            forall|k: int| start <= k < path@.len() ==> !is_sep(path@[k]),
        ensures
            start <= path@.len(),
            forall|k: int| start <= k < path@.len() ==> !is_sep(path@[k]),
            start > 0 ==> is_sep(path@[start - 1]),
        decreases start,
    {
        if start == 0 {
            break ;
        }
        let b = path[start - 1];
        if b == 92 || b == 47 {
            break ;
        }
        start = start - 1;
    }
    let mut r: Vec<u8> = Vec::new();
    let mut i: usize = start;
    while i < path.len()
        invariant
            start <= i <= path@.len(),
            r@ == path@.subrange(start as int, i as int),
        decreases path.len() - i,
    {
        r.push(path[i]);
        assert(r@ =~= path@.subrange(start as int, i + 1));
        i = i + 1;
    }
    proof {
        lemma_file_name_start_from_scan(path@, start as int);
        assert(r@ =~= spec_file_name(path@));
    }
    r
}

/// Bitness rule of payload selection: a target running under 32-bit emulation
/// receives the 32-bit payload, any other the 64-bit one.
pub fn select_payload_path(is_wow64: bool, path32: Vec<u8>, path64: Vec<u8>) -> (r: Vec<u8>)
    ensures
        is_wow64 ==> r@ == path32@,
        !is_wow64 ==> r@ == path64@,
{
    if is_wow64 {
        path32
    } else {
        path64
    }
}

} // verus!
