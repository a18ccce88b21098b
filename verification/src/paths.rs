//! Byte-level view of Unix paths: the final component and its extension,
//! with the rules that `std::path::Path::file_name` and
//! `std::path::Path::extension` document.
use vstd::prelude::*;

verus! {

/// The path separator `/`.
pub const SLASH: u8 = 47;

/// The extension separator `.`.
pub const DOT: u8 = 46;

/// Index of the last occurrence of `b` in `s`, or -1 when `b` does not occur.
pub open spec fn last_index_of(s: Seq<u8>, b: u8) -> int
    decreases s.len(),
{
    if s.len() == 0 {
        -1
    } else if s.last() == b {
        s.len() - 1
    } else {
        last_index_of(s.drop_last(), b)
    }
}

/// The bytes after the last separator.
pub open spec fn final_segment(p: Seq<u8>) -> Seq<u8> {
    p.subrange(last_index_of(p, SLASH) + 1, p.len() as int)
}

/// The final component of a path: trailing separators and `.` components
/// are skipped; the root, an empty path and a final `..` have none.
pub open spec fn file_name(p: Seq<u8>) -> Option<Seq<u8>>
    decreases p.len(),
{
    if p.len() == 0 {
        None
    } else if p.last() == SLASH {
        file_name(p.drop_last())
    } else if final_segment(p) == seq![DOT] {
        file_name(p.drop_last())
    } else if final_segment(p) == seq![DOT, DOT] {
        None
    } else {
        Some(final_segment(p))
    }
}

/// The extension of a file name: what follows its last `.`, unless that
/// dot is the first byte (a hidden file) or there is none.
pub open spec fn name_extension(name: Seq<u8>) -> Option<Seq<u8>> {
    let i = last_index_of(name, DOT);
    if i <= 0 {
        None
    } else {
        Some(name.subrange(i + 1, name.len() as int))
    }
}

/// The extension of a path's final component.
pub open spec fn path_extension(p: Seq<u8>) -> Option<Seq<u8>> {
    match file_name(p) {
        Some(name) => name_extension(name),
        None => None,
    }
}

/// ASCII lower-casing of one byte; every other byte is unchanged.
pub open spec fn ascii_lower(b: u8) -> u8 {
    if 65 <= b && b <= 90 {
        (b + 32) as u8
    } else {
        b
    }
}

/// Equality of two byte strings up to ASCII case.
pub open spec fn eq_ignore_ascii_case(a: Seq<u8>, b: Seq<u8>) -> bool {
    &&& a.len() == b.len()
    &&& forall|i: int| 0 <= i < a.len() ==> #[trigger] ascii_lower(a[i]) == ascii_lower(b[i])
}

/// Dropping a tail in which `b` does not occur keeps the last index of `b`.
proof fn lemma_last_index_of_prefix(s: Seq<u8>, b: u8, j: int)
    requires
        0 <= j <= s.len(),
        forall|k: int| j <= k < s.len() ==> s[k] != b,
    ensures
        last_index_of(s, b) == last_index_of(s.subrange(0, j), b),
    decreases s.len() - j,
{
    if j < s.len() {
        assert(s.drop_last() =~= s.subrange(0, s.len() - 1));
        lemma_last_index_of_prefix(s.drop_last(), b, j);
        assert(s.drop_last().subrange(0, j) =~= s.subrange(0, j));
    } else {
        assert(s.subrange(0, j) =~= s);
    }
}

/// Index of the last `b` in `bytes[start..end]`, as an absolute index.
fn last_index_in(bytes: &[u8], start: usize, end: usize, b: u8) -> (r: Option<usize>)
    requires
        start <= end <= bytes@.len(),
    ensures
        match r {
            Some(i) => start <= i < end && i - start == last_index_of(
                bytes@.subrange(start as int, end as int),
                b,
            ),
            None => last_index_of(bytes@.subrange(start as int, end as int), b) == -1,
        },
{
    let ghost s = bytes@.subrange(start as int, end as int);
    let mut k = end;
    while k > start
        invariant
            start <= k <= end <= bytes@.len(),
            s == bytes@.subrange(start as int, end as int),
            forall|m: int| k <= m < end ==> bytes@[m] != b,
        decreases k - start,
    {
        if bytes[k - 1] == b {
            proof {
                lemma_last_index_of_prefix(s, b, k - start);
                let t = s.subrange(0, k - start);
                assert(t.last() == b);
            }
            return Some(k - 1);
        }
        k = k - 1;
    }
    proof {
        lemma_last_index_of_prefix(s, b, 0);
    }
    None
}

/// Bounds of the final component of `bytes`, as `Path::file_name` finds it.
#[verifier::rlimit(40)]
pub fn file_name_bounds(bytes: &[u8]) -> (r: Option<(usize, usize)>)
    ensures
        match r {
            Some((s, e)) => s <= e <= bytes@.len() && file_name(bytes@) == Some(
                bytes@.subrange(s as int, e as int),
            ),
            None => file_name(bytes@) is None,
        },
{
    let mut end = bytes.len();
    assert(bytes@.subrange(0, end as int) =~= bytes@);
    loop
        invariant
            end <= bytes@.len(),
            file_name(bytes@) == file_name(bytes@.subrange(0, end as int)),
        decreases end,
    {
        let ghost p = bytes@.subrange(0, end as int);
        if end == 0 {
            return None;
        }
        assert(p.drop_last() =~= bytes@.subrange(0, end - 1));
        if bytes[end - 1] == SLASH {
            end = end - 1;
            continue;
        }
        let start = match last_index_in(bytes, 0, end, SLASH) {
            Some(i) => i + 1,
            None => 0,
        };
        assert(final_segment(p) =~= bytes@.subrange(start as int, end as int));
        if end - start == 1 && bytes[start] == DOT {
            assert(final_segment(p) =~= seq![DOT]);
            end = end - 1;
            continue;
        }
        if end - start == 2 && bytes[start] == DOT && bytes[start + 1] == DOT {
            assert(final_segment(p) =~= seq![DOT, DOT]);
            return None;
        }
        assert(final_segment(p) != seq![DOT]) by {
            if final_segment(p) == seq![DOT] {
                assert(final_segment(p)[0] == DOT);
            }
        }
        assert(final_segment(p) != seq![DOT, DOT]) by {
            if final_segment(p) == seq![DOT, DOT] {
                assert(final_segment(p)[0] == DOT && final_segment(p)[1] == DOT);
            }
        }
        return Some((start, end));
    }
}

/// Bounds of the extension of `bytes`, as `Path::extension` finds it.
pub fn extension_bounds(bytes: &[u8]) -> (r: Option<(usize, usize)>)
    ensures
        match r {
            Some((s, e)) => s <= e <= bytes@.len() && path_extension(bytes@) == Some(
                bytes@.subrange(s as int, e as int),
            ),
            None => path_extension(bytes@) is None,
        },
{
    match file_name_bounds(bytes) {
        None => None,
        Some((start, end)) => {
            let ghost name = bytes@.subrange(start as int, end as int);
            match last_index_in(bytes, start, end, DOT) {
                None => None,
                Some(i) => {
                    if i == start {
                        None
                    } else {
                        assert(name.subrange(i - start + 1, name.len() as int) =~= bytes@.subrange(
                            i + 1,
                            end as int,
                        ));
                        Some((i + 1, end))
                    }
                },
            }
        },
    }
}

fn ascii_lower_byte(b: u8) -> (r: u8)
    ensures
        r == ascii_lower(b),
{
    if 65 <= b && b <= 90 {
        b + 32
    } else {
        b
    }
}

/// Whether `candidate` equals `bytes[start..end]` up to ASCII case.
pub fn eq_ignore_ascii_case_at(candidate: &[u8], bytes: &[u8], start: usize, end: usize) -> (r:
    bool)
    requires
        start <= end <= bytes@.len(),
    ensures
        r == eq_ignore_ascii_case(candidate@, bytes@.subrange(start as int, end as int)),
{
    let ghost other = bytes@.subrange(start as int, end as int);
    if candidate.len() != end - start {
        return false;
    }
    let mut i: usize = 0;
    while i < candidate.len()
        invariant
            i <= candidate@.len(),
            candidate@.len() == end - start,
            start <= end <= bytes@.len(),
            other == bytes@.subrange(start as int, end as int),
            forall|k: int| 0 <= k < i ==> #[trigger] ascii_lower(candidate@[k]) == ascii_lower(
                other[k],
            ),
        decreases candidate@.len() - i,
    {
        if ascii_lower_byte(candidate[i]) != ascii_lower_byte(bytes[start + i]) {
            assert(ascii_lower(candidate@[i as int]) != ascii_lower(other[i as int]));
            return false;
        }
        i = i + 1;
    }
    true
}

} // verus!
