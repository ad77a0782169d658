//! Verified helpers for character-level work on strings.

use vstd::prelude::*;

verus! {

/// `needle` occurs as a contiguous run inside `hay`.
pub open spec fn spec_contains(hay: Seq<char>, needle: Seq<char>) -> bool {
    exists|i: int|
        0 <= i && i + needle.len() <= hay.len() && #[trigger] hay.subrange(i, i + needle.len())
            == needle
}

/// Relies on `String::push`: appends exactly one character.
#[verifier::external_body]
pub fn push_char(s: &mut String, c: char)
    ensures
        final(s)@ == old(s)@.push(c),
{
    s.push(c);
}

/// Copies the characters of `s` into a vector.
pub fn to_chars(s: &str) -> (r: Vec<char>)
    ensures
        r@ == s@,
{
    let n = s.unicode_len();
    let mut r: Vec<char> = Vec::new();
    let mut i: usize = 0;
    while i < n
        invariant
            n == s@.len(),
            i <= n,
            r@ == s@.subrange(0, i as int),
        decreases n - i,
    {
        let c = s.get_char(i);
        r.push(c);
        i = i + 1;
        proof {
            assert(r@ =~= s@.subrange(0, i as int));
        }
    }
    proof {
        assert(r@ =~= s@);
    }
    r
}

/// Builds a string from a range of a character vector.
pub fn chars_to_string(cs: &Vec<char>, from: usize, to: usize) -> (r: String)
    requires
        from <= to <= cs@.len(),
    ensures
        r@ == cs@.subrange(from as int, to as int),
{
    let mut r = String::new();
    let mut i: usize = from;
    while i < to
        invariant
            from <= i <= to <= cs@.len(),
            r@ == cs@.subrange(from as int, i as int),
        decreases to - i,
    {
        push_char(&mut r, cs[i]);
        i = i + 1;
        proof {
            assert(r@ =~= cs@.subrange(from as int, i as int));
        }
    }
    r
}

/// Character-for-character equality of two string slices.
pub fn str_eq(a: &str, b: &str) -> (r: bool)
    ensures
        r == (a@ == b@),
{
    let na = a.unicode_len();
    let nb = b.unicode_len();
    if na != nb {
        proof {
            assert(a@ != b@);
        }
        return false;
    }
    let mut i: usize = 0;
    while i < na
        invariant
            na == a@.len(),
            na == b@.len(),
            i <= na,
            forall|j: int| 0 <= j < i ==> a@[j] == b@[j],
        decreases na - i,
    {
        if a.get_char(i) != b.get_char(i) {
            return false;
        }
        i = i + 1;
    }
    proof {
        assert(a@ =~= b@);
    }
    true
}

/// Equality of a string and a string slice.
pub fn string_eq_str(a: &String, b: &str) -> (r: bool)
    ensures
        r == (a@ == b@),
{
    str_eq(a.as_str(), b)
}

/// Whether `pre` is a prefix of `a`.
pub fn str_starts_with(a: &str, pre: &str) -> (r: bool)
    ensures
        r == pre@.is_prefix_of(a@),
{
    let na = a.unicode_len();
    let np = pre.unicode_len();
    if np > na {
        return false;
    }
    let mut i: usize = 0;
    while i < np
        invariant
            na == a@.len(),
            np == pre@.len(),
            np <= na,
            i <= np,
            forall|j: int| 0 <= j < i ==> a@[j] == pre@[j],
        decreases np - i,
    {
        if a.get_char(i) != pre.get_char(i) {
            proof {
                assert(a@.subrange(0, np as int)[i as int] != pre@[i as int]);
            }
            return false;
        }
        i = i + 1;
    }
    proof {
        assert(a@.subrange(0, np as int) =~= pre@);
    }
    true
}

/// Whether `suf` is a suffix of `a`.
pub fn str_ends_with(a: &str, suf: &str) -> (r: bool)
    ensures
        r == suf@.is_suffix_of(a@),
{
    let na = a.unicode_len();
    let ns = suf.unicode_len();
    if ns > na {
        return false;
    }
    let off = na - ns;
    let mut i: usize = 0;
    while i < ns
        invariant
            na == a@.len(),
            ns == suf@.len(),
            off == na - ns,
            i <= ns,
            forall|j: int| 0 <= j < i ==> a@[off + j] == suf@[j],
        decreases ns - i,
    {
        if a.get_char(off + i) != suf.get_char(i) {
            proof {
                assert(a@.subrange(off as int, na as int)[i as int] != suf@[i as int]);
            }
            return false;
        }
        i = i + 1;
    }
    proof {
        assert(a@.subrange(off as int, na as int) =~= suf@);
    }
    true
}

/// Whether `needle` occurs anywhere inside `hay`.
pub fn str_contains(hay: &str, needle: &str) -> (r: bool)
    ensures
        r == spec_contains(hay@, needle@),
{
    let nh = hay.unicode_len();
    let nn = needle.unicode_len();
    if nn > nh {
        proof {
            assert(!spec_contains(hay@, needle@));
        }
        return false;
    }
    let mut i: usize = 0;
    while i <= nh - nn
        invariant
            nh == hay@.len(),
            nn == needle@.len(),
            nn <= nh,
            i <= nh - nn + 1,
            forall|k: int|
                0 <= k < i ==> #[trigger] hay@.subrange(k, k + needle@.len()) != needle@,
        decreases nh - nn - i + 1,
    {
        let mut j: usize = 0;
        let mut all: bool = true;
        while j < nn
            invariant
                nh == hay@.len(),
                nn == needle@.len(),
                i + nn <= nh,
                j <= nn,
                all == (forall|t: int| 0 <= t < j ==> hay@[i + t] == needle@[t]),
            decreases nn - j,
        {
            if hay.get_char(i + j) != needle.get_char(j) {
                all = false;
                proof {
                    assert(hay@[i + j] != needle@[j as int]);
                }
                j = nn;
            } else {
                j = j + 1;
            }
        }
        if all {
            proof {
                assert(hay@.subrange(i as int, i + needle@.len()) =~= needle@);
            }
            return true;
        }
        proof {
            assert(hay@.subrange(i as int, i + needle@.len()) != needle@) by {
                let ii = i as int;
                assert(exists|t: int| 0 <= t < nn && hay@[ii + t] != needle@[t]);
                let t = choose|t: int| 0 <= t < nn && hay@[ii + t] != needle@[t];
                assert(hay@.subrange(ii, ii + needle@.len())[t] == hay@[ii + t]);
            }
        }
        i = i + 1;
    }
    proof {
        assert(!spec_contains(hay@, needle@)) by {
            if spec_contains(hay@, needle@) {
                let k = choose|k: int|
                    0 <= k && k + needle@.len() <= hay@.len() && #[trigger] hay@.subrange(
                        k,
                        k + needle@.len(),
                    ) == needle@;
                assert(hay@.subrange(k, k + needle@.len()) != needle@);
            }
        }
    }
    false
}

/// The same sequence with every `-` replaced by `_`.
pub open spec fn spec_dash_to_underscore(s: Seq<char>) -> Seq<char> {
    s.map(|i: int, c: char| if c == '-' { '_' } else { c })
}

/// Replaces every `-` with `_`.
pub fn dash_to_underscore(s: &str) -> (r: String)
    ensures
        r@ == spec_dash_to_underscore(s@),
{
    let n = s.unicode_len();
    let mut r = String::new();
    let mut i: usize = 0;
    while i < n
        invariant
            n == s@.len(),
            i <= n,
            r@ == spec_dash_to_underscore(s@.subrange(0, i as int)),
        decreases n - i,
    {
        let c = s.get_char(i);
        if c == '-' {
            push_char(&mut r, '_');
        } else {
            push_char(&mut r, c);
        }
        i = i + 1;
        proof {
            assert(r@ =~= spec_dash_to_underscore(s@.subrange(0, i as int)));
        }
    }
    proof {
        assert(s@.subrange(0, n as int) =~= s@);
    }
    r
}

} // verus!
