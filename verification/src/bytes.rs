//! Byte-string utilities: ASCII case folding, substring search, NUL scanning
//! and little-endian reads. Process, module and function names are byte
//! strings as the OS reports them.

use vstd::prelude::*;

verus! {

/// ASCII lower case of one byte.
pub open spec fn lower(b: u8) -> u8 {
    if 65 <= b <= 90 {
        (b + 32) as u8
    } else {
        b
    }
}

/// ASCII lower case of a byte string.
pub open spec fn lower_seq(s: Seq<u8>) -> Seq<u8> {
    s.map_values(|b: u8| lower(b))
}

/// `needle` occurs contiguously inside `hay`.
pub open spec fn is_substring(needle: Seq<u8>, hay: Seq<u8>) -> bool {
    exists|i: int|
        0 <= i && i + needle.len() <= hay.len() && #[trigger] hay.subrange(i, i + needle.len())
            == needle
}

/// Two names are equal up to ASCII case.
pub open spec fn eq_ignore_case(a: Seq<u8>, b: Seq<u8>) -> bool {
    lower_seq(a) == lower_seq(b)
}

/// ASCII lower case of a byte string, executable form.
pub fn to_lower_vec(s: &Vec<u8>) -> (r: Vec<u8>)
    ensures
        r@ == lower_seq(s@),
{
    let mut r: Vec<u8> = Vec::new();
    let mut i: usize = 0;
    while i < s.len()
        invariant
            i <= s.len(),
            r@ == lower_seq(s@.subrange(0, i as int)),
        decreases s.len() - i,
    {
        let b = s[i];
        if 65 <= b && b <= 90 {
            r.push(b + 32);
        } else {
            r.push(b);
        }
        i = i + 1;
        assert(r@ =~= lower_seq(s@.subrange(0, i as int))) by {
            assert(s@.subrange(0, i as int) =~= s@.subrange(0, i - 1).push(s@[i - 1]));
            assert(lower_seq(s@.subrange(0, i - 1).push(s@[i - 1])) =~= lower_seq(
                s@.subrange(0, i - 1),
            ).push(lower(s@[i - 1])));
        }
    }
    assert(s@.subrange(0, s@.len() as int) =~= s@);
    r
}

/// Whether `needle` occurs at offset `i` of `hay`.
fn matches_at(hay: &Vec<u8>, needle: &Vec<u8>, i: usize) -> (r: bool)
    requires
        i + needle@.len() <= hay@.len(),
    ensures
        r == (hay@.subrange(i as int, i + needle@.len()) == needle@),
{
    let n = hay.len();
    let mut j: usize = 0;
    while j < needle.len()
        invariant
            n == hay@.len(),
            i + needle@.len() <= hay@.len(),
            j <= needle@.len(),
            forall|k: int| 0 <= k < j ==> hay@[i + k] == needle@[k],
        decreases needle.len() - j,
    {
        if hay[i + j] != needle[j] {
            assert(hay@.subrange(i as int, i + needle@.len())[j as int] != needle@[j as int]);
            return false;
        }
        j = j + 1;
    }
    assert(hay@.subrange(i as int, i + needle@.len()) =~= needle@);
    true
}

/// Substring search: whether `needle` occurs contiguously inside `hay`.
pub fn contains_sub(hay: &Vec<u8>, needle: &Vec<u8>) -> (r: bool)
    ensures
        r == is_substring(needle@, hay@),
{
    if needle.len() > hay.len() {
        return false;
    }
    if needle.len() == 0 {
        assert(is_substring(needle@, hay@)) by {
            assert(hay@.subrange(0, 0 + needle@.len() as int) =~= needle@);
        }
        return true;
    }
    let last = hay.len() - needle.len();
    let mut i: usize = 0;
    loop
        invariant
            0 < needle@.len() <= hay@.len(),
            last == hay@.len() - needle@.len(),
            last < usize::MAX,
            i <= last + 1,
            forall|k: int|
                0 <= k < i ==> #[trigger] hay@.subrange(k, k + needle@.len()) != needle@,
        ensures
            (i <= last && hay@.subrange(i as int, i + needle@.len()) == needle@)
                || (i == last + 1 && forall|k: int|
                0 <= k < i ==> #[trigger] hay@.subrange(k, k + needle@.len()) != needle@),
        decreases last + 1 - i,
    {
        if i > last {
            break ;
        }
        if matches_at(hay, needle, i) {
            break ;
        }
        i = i + 1;
    }
    if i <= last {
        assert(is_substring(needle@, hay@));
        true
    } else {
        assert(!is_substring(needle@, hay@)) by {
            assert(forall|k: int|
                0 <= k && k + needle@.len() <= hay@.len() ==> #[trigger] hay@.subrange(
                    k,
                    k + needle@.len(),
                ) != needle@);
        }
        false
    }
}

/// Case-insensitive equality of two names, executable form.
pub fn eq_names_ignore_case(a: &Vec<u8>, b: &Vec<u8>) -> (r: bool)
    ensures
        r == eq_ignore_case(a@, b@),
{
    let la = to_lower_vec(a);
    let lb = to_lower_vec(b);
    if la.len() != lb.len() {
        assert(lower_seq(a@).len() == a@.len());
        assert(lower_seq(b@).len() == b@.len());
        return false;
    }
    let mut i: usize = 0;
    while i < la.len()
        invariant
            la@ == lower_seq(a@),
            lb@ == lower_seq(b@),
            la@.len() == lb@.len(),
            i <= la@.len(),
            forall|k: int| 0 <= k < i ==> la@[k] == lb@[k],
        decreases la.len() - i,
    {
        if la[i] != lb[i] {
            assert(lower_seq(a@) != lower_seq(b@)) by {
                assert(lower_seq(a@)[i as int] != lower_seq(b@)[i as int]);
            }
            return false;
        }
        i = i + 1;
    }
    assert(la@ =~= lb@);
    true
}

/// Byte equality of two names.
pub fn eq_bytes(a: &Vec<u8>, b: &Vec<u8>) -> (r: bool)
    ensures
        r == (a@ == b@),
{
    if a.len() != b.len() {
        return false;
    }
    let mut i: usize = 0;
    while i < a.len()
        invariant
            a@.len() == b@.len(),
            i <= a@.len(),
            forall|k: int| 0 <= k < i ==> a@[k] == b@[k],
        decreases a.len() - i,
    {
        if a[i] != b[i] {
            assert(a@[i as int] != b@[i as int]);
            return false;
        }
        i = i + 1;
    }
    assert(a@ =~= b@);
    true
}

/// A fresh copy of a byte string.
pub fn copy_bytes(v: &Vec<u8>) -> (r: Vec<u8>)
    ensures
        r@ == v@,
{
    let mut r: Vec<u8> = Vec::new();
    let mut i: usize = 0;
    while i < v.len()
        invariant
            i <= v@.len(),
            r@ == v@.subrange(0, i as int),
        decreases v.len() - i,
    {
        r.push(v[i]);
        assert(r@ =~= v@.subrange(0, i + 1));
        i = i + 1;
    }
    assert(r@ =~= v@);
    r
}

/// Index of the first NUL byte of `s` at or after `from`, or `-1` when none.
pub open spec fn find_nul(s: Seq<u8>, from: int) -> int
    decreases s.len() - from when 0 <= from <= s.len()
{
    if from < 0 || from >= s.len() {
        -1
    } else if s[from] == 0 {
        from
    } else {
        find_nul(s, from + 1)
    }
}

/// The NUL-terminated byte string of `s` that starts at `from`: the bytes up
/// to but not including the first NUL, or `None` when no NUL follows.
pub open spec fn cstr_at(s: Seq<u8>, from: int) -> Option<Seq<u8>> {
    if 0 <= from <= s.len() && find_nul(s, from) >= 0 {
        Some(s.subrange(from, find_nul(s, from)))
    } else {
        None
    }
}

/// Scan for the first NUL at or after `from`; executable form of `find_nul`.
pub fn scan_nul(s: &Vec<u8>, from: usize) -> (r: Option<usize>)
    requires
        from <= s@.len(),
    ensures
        r is Some <==> find_nul(s@, from as int) >= 0,
        r is Some ==> r->0 == find_nul(s@, from as int),
{
    let mut i: usize = from;
    while i < s.len()
        invariant
            from <= i <= s@.len(),
            find_nul(s@, from as int) == find_nul(s@, i as int),
        decreases s.len() - i,
    {
        if s[i] == 0 {
            return Some(i);
        }
        i = i + 1;
    }
    None
}

/// Copy of the NUL-terminated byte string starting at `from`, without the NUL.
pub fn read_cstr(s: &Vec<u8>, from: usize) -> (r: Option<Vec<u8>>)
    requires
        from <= s@.len(),
    ensures
        r is Some <==> cstr_at(s@, from as int) is Some,
        r is Some ==> r->0@ == cstr_at(s@, from as int)->0,
{
    let end = match scan_nul(s, from) {
        Some(e) => e,
        None => {
            return None;
        },
    };
    proof {
        lemma_find_nul_in_range(s@, from as int);
    }
    let mut r: Vec<u8> = Vec::new();
    let mut i: usize = from;
    while i < end
        invariant
            from <= i <= end <= s@.len(),
            r@ == s@.subrange(from as int, i as int),
        decreases end - i,
    {
        r.push(s[i]);
        assert(r@ =~= s@.subrange(from as int, i + 1));
        i = i + 1;
    }
    Some(r)
}

/// A found NUL lies inside the string, at or after the scan's start.
pub proof fn lemma_find_nul_in_range(s: Seq<u8>, from: int)
    requires
        0 <= from <= s.len(),
    ensures
        find_nul(s, from) >= 0 ==> from <= find_nul(s, from) < s.len() && s[find_nul(s, from)]
            == 0,
        find_nul(s, from) >= 0 ==> forall|k: int| from <= k < find_nul(s, from) ==> s[k] != 0,
        find_nul(s, from) < 0 ==> forall|k: int| from <= k < s.len() ==> s[k] != 0,
    decreases s.len() - from,
{
    if from < s.len() && s[from] != 0 {
        lemma_find_nul_in_range(s, from + 1);
    }
}

/// The little-endian value of the `n` bytes of `s` that start at `off`.
pub open spec fn le_at(s: Seq<u8>, off: int, n: nat) -> nat
    decreases n,
{
    if n == 0 {
        0
    } else {
        (s[off] + 256 * le_at(s, off + 1, (n - 1) as nat)) as nat
    }
}

/// Little-endian u16 read.
pub fn read_u16(s: &Vec<u8>, off: usize) -> (r: u16)
    requires
        off + 2 <= s@.len(),
    ensures
        r == le_at(s@, off as int, 2),
{
    let n = s.len();
    let r = s[off] as u16 + 256 * (s[off + 1] as u16);
    assert(le_at(s@, off as int, 2) == s@[off as int] + 256 * le_at(s@, off + 1, 1));
    assert(le_at(s@, off + 1, 1) == s@[off + 1] + 256 * le_at(s@, off + 2, 0));
    r
}

/// Little-endian u32 read.
pub fn read_u32(s: &Vec<u8>, off: usize) -> (r: u32)
    requires
        off + 4 <= s@.len(),
    ensures
        r == le_at(s@, off as int, 4),
{
    let n = s.len();
    let b0 = s[off] as u32;
    let b1 = s[off + 1] as u32;
    let b2 = s[off + 2] as u32;
    let b3 = s[off + 3] as u32;
    let r = b0 + 256 * b1 + 65536 * b2 + 16777216 * b3;
    assert(le_at(s@, off as int, 4) == s@[off as int] + 256 * le_at(s@, off + 1, 3));
    assert(le_at(s@, off + 1, 3) == s@[off + 1] + 256 * le_at(s@, off + 2, 2));
    assert(le_at(s@, off + 2, 2) == s@[off + 2] + 256 * le_at(s@, off + 3, 1));
    assert(le_at(s@, off + 3, 1) == s@[off + 3] + 256 * le_at(s@, off + 4, 0));
    r
}

/// Little-endian u64 read.
pub fn read_u64(s: &Vec<u8>, off: usize) -> (r: u64)
    requires
        off + 8 <= s@.len(),
    ensures
        r == le_at(s@, off as int, 8),
{
    let n = s.len();
    let lo = read_u32(s, off) as u64;
    let hi = read_u32(s, off + 4) as u64;
    let r = lo + 4294967296 * hi;
    proof {
        lemma_le_at_split(s@, off as int);
    }
    r
}

/// An 8-byte little-endian value splits into its two 4-byte halves.
proof fn lemma_le_at_split(s: Seq<u8>, off: int)
    ensures
        le_at(s, off, 8) == le_at(s, off, 4) + 0x1_0000_0000 * le_at(s, off + 4, 4),
{
    assert(le_at(s, off, 8) == s[off] + 256 * le_at(s, off + 1, 7));
    assert(le_at(s, off + 1, 7) == s[off + 1] + 256 * le_at(s, off + 2, 6));
    assert(le_at(s, off + 2, 6) == s[off + 2] + 256 * le_at(s, off + 3, 5));
    assert(le_at(s, off + 3, 5) == s[off + 3] + 256 * le_at(s, off + 4, 4));
    assert(le_at(s, off, 4) == s[off] + 256 * le_at(s, off + 1, 3));
    assert(le_at(s, off + 1, 3) == s[off + 1] + 256 * le_at(s, off + 2, 2));
    assert(le_at(s, off + 2, 2) == s[off + 2] + 256 * le_at(s, off + 3, 1));
    assert(le_at(s, off + 3, 1) == s[off + 3] + 256 * le_at(s, off + 4, 0));
}

/// A little-endian value is bounded by the range of its width.
pub proof fn lemma_le_at_bound(s: Seq<u8>, off: int, n: nat)
    requires
        0 <= off,
        off + n <= s.len(),
    ensures
        le_at(s, off, n) < pow256(n),
    decreases n,
{
    if n > 0 {
        lemma_le_at_bound(s, off + 1, (n - 1) as nat);
    }
}

/// 256 to the power `n`.
pub open spec fn pow256(n: nat) -> nat
    decreases n,
{
    if n == 0 {
        1
    } else {
        256 * pow256((n - 1) as nat)
    }
}

} // verus!
