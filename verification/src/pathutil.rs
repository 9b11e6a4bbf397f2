//! Small path-string helpers: finding the final `/`-separated segment of a
//! path and deriving the temporary sibling path the engine writes into
//! before the final rename.

use vstd::prelude::*;

verus! {

/// Index of the last occurrence of `c` in `s`, or `-1` when `s` does not
/// contain `c`.
pub open spec fn spec_rfind(s: Seq<char>, c: char) -> int
    decreases s.len(),
{
    if s.len() == 0 {
        -1
    } else if s[s.len() - 1] == c {
        s.len() - 1
    } else {
        spec_rfind(s.drop_last(), c)
    }
}

/// The result of [`spec_rfind`] is `-1` or a valid index of `s`.
pub proof fn lemma_rfind_bounds(s: Seq<char>, c: char)
    ensures
        -1 <= spec_rfind(s, c) < s.len(),
    decreases s.len(),
{
    if s.len() != 0 && s[s.len() - 1] != c {
        lemma_rfind_bounds(s.drop_last(), c);
    }
}

/// Finds the last occurrence of `c` in `s`, scanning from the end.
pub fn rfind_char(s: &str, c: char) -> (r: Option<usize>)
    ensures
        match r {
            Some(i) => i == spec_rfind(s@, c),
            None => spec_rfind(s@, c) == -1,
        },
{
    let n = s.unicode_len();
    let mut i = n;
    proof {
        assert(s@.take(n as int) =~= s@);
    }
    while i > 0
        invariant
            i <= n,
            n == s@.len(),
            spec_rfind(s@, c) == spec_rfind(s@.take(i as int), c),
        decreases i,
    {
        let ch = s.get_char(i - 1);
        proof {
            assert(s@.take(i as int).drop_last() =~= s@.take(i as int - 1));
        }
        if ch == c {
            proof {
                lemma_rfind_bounds(s@, c);
            }
            return Some(i - 1);
        }
        i = i - 1;
    }
    None
}

/// Everything after the last `/` of `s` (all of `s` when it has none).
pub open spec fn spec_last_segment(s: Seq<char>) -> Seq<char> {
    s.skip(spec_rfind(s, '/') + 1)
}

/// Returns the final `/`-separated segment of `s`, which is empty exactly
/// when `s` is empty or ends in `/`.
pub fn last_segment<'a>(s: &'a str) -> (r: &'a str)
    ensures
        r@ == spec_last_segment(s@),
{
    let n = s.unicode_len();
    let seg_start: usize = match rfind_char(s, '/') {
        Some(i) => {
            proof {
                lemma_rfind_bounds(s@, '/');
            }
            i + 1
        },
        None => 0,
    };
    let r = s.substring_char(seg_start, n);
    proof {
        assert(s@.subrange(seg_start as int, n as int) =~= s@.skip(seg_start as int));
    }
    r
}

/// The temporary sibling of `path`: the path with its extension replaced by
/// `dd`.  The extension is what follows the last `.` of the final path
/// segment, unless that `.` starts the segment (a hidden file) or the
/// segment has none; then `.dd` is appended instead.
pub open spec fn spec_temp_path(s: Seq<char>) -> Seq<char> {
    let name_start = spec_rfind(s, '/') + 1;
    let name = s.skip(name_start);
    let dot = spec_rfind(name, '.');
    let keep = if dot > 0 {
        name_start + dot
    } else {
        s.len() as int
    };
    s.take(keep) + ".dd"@
}

/// Derives the temporary output path the engine writes into before the
/// final rename to `path`.
pub fn temp_path_of(path: &str) -> (r: String)
    ensures
        r@ == spec_temp_path(path@),
{
    let n = path.unicode_len();
    let name_start: usize = match rfind_char(path, '/') {
        Some(i) => {
            proof {
                lemma_rfind_bounds(path@, '/');
            }
            i + 1
        },
        None => 0,
    };
    let name = path.substring_char(name_start, n);
    proof {
        assert(path@.subrange(name_start as int, n as int) =~= path@.skip(name_start as int));
        lemma_rfind_bounds(name@, '.');
    }
    let keep: usize = match rfind_char(name, '.') {
        Some(d) => {
            if d > 0 {
                name_start + d
            } else {
                n
            }
        },
        None => n,
    };
    let prefix = path.substring_char(0, keep);
    proof {
        assert(path@.subrange(0, keep as int) =~= path@.take(keep as int));
    }
    String::from_str(prefix).concat(".dd")
}

} // verus!
