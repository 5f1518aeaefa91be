//! Character-sequence utilities: ASCII lowering, substring and suffix tests.
//!
//! Asset selection compares lower-cased release filenames against platform
//! alias substrings, so these primitives carry exact contracts over the
//! `Seq<char>` views of strings.

use vstd::prelude::*;
use vstd::string::StrSliceExecFns;

verus! {

/// ASCII lowering of one character: `A`..`Z` map to `a`..`z`, all else is kept.
pub open spec fn lower_char(c: char) -> char {
    if 65 <= c as u32 && c as u32 <= 90 {
        ((c as u32) + 32) as char
    } else {
        c
    }
}

/// ASCII lowering of a whole character sequence.
pub open spec fn lower(s: Seq<char>) -> Seq<char> {
    s.map_values(|c: char| lower_char(c))
}

/// The characters of `s`, one per element.
pub fn chars_of(s: &str) -> (r: Vec<char>)
    ensures
        r@ == s@,
{
    let n = s.unicode_len();
    let mut r: Vec<char> = Vec::new();
    let mut i: usize = 0;
    while i < n
        invariant
            i <= n,
            n == s@.len(),
            r@ == s@.subrange(0, i as int),
        decreases n - i,
    {
        let c = s.get_char(i);
        r.push(c);
        proof {
            assert(s@.subrange(0, i + 1) =~= s@.subrange(0, i as int).push(s@[i as int]));
        }
        i += 1;
    }
    proof {
        assert(s@.subrange(0, n as int) =~= s@);
    }
    r
}

/// ASCII-lower every character of `s`.
pub fn lower_vec(s: &Vec<char>) -> (r: Vec<char>)
    ensures
        r@ == lower(s@),
{
    let mut r: Vec<char> = Vec::new();
    let mut i: usize = 0;
    while i < s.len()
        invariant
            i <= s@.len(),
            r@.len() == i,
            forall|k: int| 0 <= k < i ==> r@[k] == lower_char(s@[k]),
        decreases s@.len() - i,
    {
        let c = s[i];
        let u = c as u32;
        if 65 <= u && u <= 90 {
            r.push(((u + 32) as u8) as char);
        } else {
            r.push(c);
        }
        i += 1;
    }
    proof {
        assert(r@ =~= lower(s@));
    }
    r
}

/// `n` occurs in `h` starting at position `i`.
pub open spec fn match_at(h: Seq<char>, n: Seq<char>, i: int) -> bool {
    &&& 0 <= i
    &&& i + n.len() <= h.len()
    &&& h.subrange(i, i + n.len() as int) == n
}

/// `n` occurs somewhere in `h` as a contiguous substring.
pub open spec fn contains_seq(h: Seq<char>, n: Seq<char>) -> bool {
    exists|i: int| match_at(h, n, i)
}

/// `t` is a suffix of `h`.
pub open spec fn ends_with_seq(h: Seq<char>, t: Seq<char>) -> bool {
    &&& t.len() <= h.len()
    &&& h.subrange(h.len() - t.len(), h.len() as int) == t
}

/// Compare `n` against the characters of `h` starting at `i`.
pub fn matches_at(h: &Vec<char>, n: &Vec<char>, i: usize) -> (r: bool)
    requires
        i + n@.len() <= h@.len(),
    ensures
        r == match_at(h@, n@, i as int),
{
    let hl = h.len();
    let mut j: usize = 0;
    while j < n.len()
        invariant
            j <= n@.len(),
            i + n@.len() <= h@.len(),
            hl == h@.len(),
            forall|k: int| 0 <= k < j ==> h@[i + k] == n@[k],
        decreases n@.len() - j,
    {
        proof {
            assert(i + j < hl);
        }
        if h[i + j] != n[j] {
            proof {
                assert(h@.subrange(i as int, i + n@.len()) != n@) by {
                    assert(h@.subrange(i as int, i + n@.len())[j as int] == h@[i + j]);
                }
            }
            return false;
        }
        j += 1;
    }
    proof {
        assert(h@.subrange(i as int, i + n@.len()) =~= n@);
    }
    true
}

/// Substring search: does `n` occur anywhere in `h`?
pub fn contains_vec(h: &Vec<char>, n: &Vec<char>) -> (r: bool)
    ensures
        r == contains_seq(h@, n@),
{
    if n.len() > h.len() {
        return false;
    }
    if n.len() == 0 {
        proof {
            assert(match_at(h@, n@, 0)) by {
                assert(h@.subrange(0, 0) =~= n@);
            }
        }
        return true;
    }
    let mut i: usize = 0;
    while i <= h.len() - n.len()
        invariant
            1 <= n@.len() <= h@.len(),
            i <= h@.len(),
            forall|k: int| 0 <= k < i ==> !match_at(h@, n@, k),
        decreases h@.len() - i,
    {
        if matches_at(h, n, i) {
            proof {
                assert(match_at(h@, n@, i as int));
            }
            return true;
        }
        i += 1;
    }
    proof {
        assert forall|k: int| !match_at(h@, n@, k) by {
            if 0 <= k && k + n@.len() <= h@.len() {
                assert(k < i);
            }
        }
    }
    false
}

/// Suffix test: does `h` end with `t`?
pub fn ends_with_vec(h: &Vec<char>, t: &Vec<char>) -> (r: bool)
    ensures
        r == ends_with_seq(h@, t@),
{
    if t.len() > h.len() {
        return false;
    }
    matches_at(h, t, h.len() - t.len())
}

/// Equality of two string slices, stated over their character views.
pub fn str_eq(a: &str, b: &str) -> (r: bool)
    ensures
        r == (a@ == b@),
{
    let na = a.unicode_len();
    let nb = b.unicode_len();
    if na != nb {
        return false;
    }
    let mut i: usize = 0;
    while i < na
        invariant
            i <= na,
            na == a@.len(),
            na == b@.len(),
            forall|k: int| 0 <= k < i ==> a@[k] == b@[k],
        decreases na - i,
    {
        if a.get_char(i) != b.get_char(i) {
            return false;
        }
        i += 1;
    }
    proof {
        assert(a@ =~= b@);
    }
    true
}

} // verus!
