//! Work on declared type expressions.
//!
//! A type expression is a token list ([`crate::model::TypeExpr`]).  This
//! module splits a type written as text into such tokens, unwraps one
//! container layer, rewrites a type for expression position, and cancels
//! `super` markers of a cross-module reference against the namespace stack
//! of the declaration site.

use vstd::prelude::*;

use crate::model::{spaced_join, spec_spaced_join, TypeExpr};
use crate::strutil::{push_char, to_chars};

verus! {

/// Whitespace inside a type expression.
pub open spec fn spec_is_space(c: char) -> bool {
    c == ' ' || c == '\t' || c == '\r' || c == '\n'
}

/// A character that continues an identifier-like token.
pub open spec fn spec_is_word_char(c: char) -> bool {
    ('a' <= c <= 'z') || ('A' <= c <= 'Z') || ('0' <= c <= '9') || c == '_' || c == '#'
}

/// Splits type text into tokens, carrying the identifier characters read so
/// far in `cur`.  Identifier runs form one token, `::` forms one token, any
/// other non-space character stands alone.
pub open spec fn spec_type_tokens_from(s: Seq<char>, cur: Seq<char>) -> Seq<Seq<char>>
    decreases s.len(),
{
    if s.len() == 0 {
        if cur.len() == 0 {
            Seq::<Seq<char>>::empty()
        } else {
            seq![cur]
        }
    } else if spec_is_word_char(s[0]) {
        spec_type_tokens_from(s.drop_first(), cur.push(s[0]))
    } else {
        let flushed: Seq<Seq<char>> = if cur.len() == 0 {
            Seq::<Seq<char>>::empty()
        } else {
            seq![cur]
        };
        if spec_is_space(s[0]) {
            flushed + spec_type_tokens_from(s.drop_first(), Seq::<char>::empty())
        } else if s.len() >= 2 && s[0] == ':' && s[1] == ':' {
            flushed + seq!["::"@] + spec_type_tokens_from(s.skip(2), Seq::<char>::empty())
        } else {
            flushed + seq![seq![s[0]]] + spec_type_tokens_from(s.drop_first(), Seq::<char>::empty())
        }
    }
}

/// The token list of type text.
pub open spec fn spec_type_tokens(s: Seq<char>) -> Seq<Seq<char>> {
    spec_type_tokens_from(s, Seq::<char>::empty())
}

/// Whether a character continues an identifier-like token.
fn word_char(c: char) -> (r: bool)
    ensures
        r == spec_is_word_char(c),
{
    ('a' <= c && c <= 'z') || ('A' <= c && c <= 'Z') || ('0' <= c && c <= '9') || c == '_' || c
        == '#'
}

/// Splits type text into its tokens.
pub fn type_tokens(s: &str) -> (r: Vec<String>)
    ensures
        r.deep_view() == spec_type_tokens(s@),
{
    let cs = to_chars(s);
    let n = cs.len();
    let mut out: Vec<String> = Vec::new();
    let mut cur = String::new();
    let mut i: usize = 0;
    proof {
        assert(s@.skip(0) =~= s@);
        assert(out.deep_view() + spec_type_tokens_from(s@, cur@) =~= spec_type_tokens_from(
            s@,
            cur@,
        ));
    }
    while i < n
        invariant
            n == cs@.len(),
            cs@ == s@,
            i <= n,
            spec_type_tokens(s@) == out.deep_view() + spec_type_tokens_from(s@.skip(i as int), cur@),
        decreases n - i,
    {
        let ghost rest = s@.skip(i as int);
        let ghost out0 = out;
        let ghost cur0 = cur@;
        proof {
            assert(rest.len() > 0);
            assert(rest[0] == s@[i as int]);
            assert(rest.drop_first() =~= s@.skip(i as int + 1));
        }
        let c = cs[i];
        if word_char(c) {
            push_char(&mut cur, c);
            i = i + 1;
            proof {
                assert(spec_type_tokens_from(rest, cur0) == spec_type_tokens_from(
                    s@.skip(i as int),
                    cur@,
                ));
            }
        } else {
            let ghost flushed: Seq<Seq<char>> = if cur0.len() == 0 {
                Seq::<Seq<char>>::empty()
            } else {
                seq![cur0]
            };
            if cur.unicode_len() > 0 {
                let done = cur;
                let ghost gdone = done;
                cur = String::new();
                out.push(done);
                proof {
                    crate::model::lemma_deep_view_push(out0, out, gdone);
                }
            }
            proof {
                assert(out.deep_view() =~= out0.deep_view() + flushed);
                assert(cur@ =~= Seq::<char>::empty());
            }
            if c == ' ' || c == '\t' || c == '\r' || c == '\n' {
                i = i + 1;
                proof {
                    let x = spec_type_tokens_from(s@.skip(i as int), Seq::<char>::empty());
                    assert(spec_type_tokens_from(rest, cur0) == flushed + x);
                    assert(out0.deep_view() + (flushed + x) =~= out.deep_view() + x);
                }
            } else if c == ':' && i + 1 < n && cs[i + 1] == ':' {
                let ghost out1 = out;
                let mut t = String::new();
                t.append("::");
                let ghost gt = t;
                out.push(t);
                i = i + 2;
                proof {
                    crate::model::lemma_deep_view_push(out1, out, gt);
                    assert(rest.len() >= 2 && rest[0] == ':' && rest[1] == ':');
                    assert(rest.skip(2) =~= s@.skip(i as int));
                    let x = spec_type_tokens_from(s@.skip(i as int), Seq::<char>::empty());
                    assert(spec_type_tokens_from(rest, cur0) == flushed + seq!["::"@] + x);
                    assert(out0.deep_view() + (flushed + seq!["::"@] + x) =~= out.deep_view() + x);
                }
            } else {
                let ghost out1 = out;
                let t = crate::strutil::chars_to_string(&cs, i, i + 1);
                let ghost gt = t;
                out.push(t);
                i = i + 1;
                proof {
                    crate::model::lemma_deep_view_push(out1, out, gt);
                    assert(gt@ =~= seq![rest[0]]);
                    let x = spec_type_tokens_from(s@.skip(i as int), Seq::<char>::empty());
                    assert(spec_type_tokens_from(rest, cur0) == flushed + seq![seq![rest[0]]] + x);
                    assert(out0.deep_view() + (flushed + seq![seq![rest[0]]] + x) =~= out.deep_view()
                        + x);
                }
            }
        }
    }
    proof {
        assert(s@.skip(n as int) =~= Seq::<char>::empty());
    }
    let ghost outf = out;
    let ghost curf = cur@;
    if cur.unicode_len() > 0 {
        let done = cur;
        let ghost gdone = done;
        out.push(done);
        proof {
            crate::model::lemma_deep_view_push(outf, out, gdone);
        }
    }
    proof {
        assert(spec_type_tokens_from(Seq::<char>::empty(), curf) == (if curf.len() == 0 {
            Seq::<Seq<char>>::empty()
        } else {
            seq![curf]
        }));
        assert(out.deep_view() =~= spec_type_tokens(s@));
    }
    out
}

/// The index of the first `<` token, or the length when there is none,
/// searching from `i`.
pub open spec fn spec_first_lt_from(toks: Seq<Seq<char>>, i: int) -> int
    decreases toks.len() - i,
{
    if i < 0 || i >= toks.len() {
        toks.len() as int
    } else if toks[i] == "<"@ {
        i
    } else {
        spec_first_lt_from(toks, i + 1)
    }
}

/// The index of the first `<` token, or the length when there is none.
pub open spec fn spec_first_lt(toks: Seq<Seq<char>>) -> int {
    spec_first_lt_from(toks, 0)
}

/// Finds the first `<` token.
fn first_lt(toks: &Vec<String>) -> (r: usize)
    ensures
        r as int == spec_first_lt(toks.deep_view()),
        r <= toks@.len(),
{
    let ghost tv = toks.deep_view();
    let n = toks.len();
    let mut i: usize = 0;
    while i < n
        invariant
            n == toks@.len(),
            tv == toks.deep_view(),
            tv.len() == toks@.len(),
            i <= n,
            spec_first_lt(tv) == spec_first_lt_from(tv, i as int),
        decreases n - i,
    {
        if crate::strutil::string_eq_str(&toks[i], "<") {
            return i;
        }
        i = i + 1;
    }
    n
}

/// Structurally unwraps one layer of the container `ctor`: when the tokens
/// read `ctor < argument >` (with the identifier possibly followed by a
/// turbofish `::`), the argument tokens remain; otherwise the type is
/// unchanged.
///
/// This is deliberately total.  The legacy behavior was fatal on shapes
/// such as a matching constructor without angle-bracketed arguments;
/// verified code does not panic, so those shapes — which the generator
/// never produces — fall under the unchanged case instead.
pub open spec fn spec_unwrap_type(toks: Seq<Seq<char>>, ctor: Seq<char>) -> Seq<Seq<char>> {
    let len = toks.len() as int;
    let k = spec_first_lt(toks);
    if k >= len || k == 0 {
        toks
    } else {
        let j = if toks[k - 1] == "::"@ {
            k - 2
        } else {
            k - 1
        };
        if j >= 0 && toks[j] == ctor && k + 1 <= len - 1 && toks[len - 1] == ">"@ {
            toks.subrange(k + 1, len - 1)
        } else {
            toks
        }
    }
}

/// Unwraps one layer of the container `ctor` from a declared type.
pub fn unwrap_type(ty: &TypeExpr, ctor: &str) -> (r: TypeExpr)
    ensures
        r@ == spec_unwrap_type(ty@, ctor@),
{
    let ghost tv = ty@;
    let len = ty.tokens.len();
    let k = first_lt(&ty.tokens);
    if k >= len || k == 0 {
        return ty.clone();
    }
    let j: usize = if crate::strutil::string_eq_str(&ty.tokens[k - 1], "::") && k >= 2 {
        k - 2
    } else {
        k - 1
    };
    let matches_ctor = (if crate::strutil::string_eq_str(&ty.tokens[k - 1], "::") {
        k >= 2
    } else {
        true
    });
    if matches_ctor && crate::strutil::string_eq_str(&ty.tokens[j], ctor) && k + 1 <= len - 1
        && crate::strutil::string_eq_str(&ty.tokens[len - 1], ">") {
        let mut tokens: Vec<String> = Vec::new();
        let mut i: usize = k + 1;
        while i < len - 1
            invariant
                len == ty.tokens@.len(),
                k + 1 <= i <= len - 1,
                tv == ty@,
                tv.len() == len,
                tokens.deep_view() == tv.subrange(k + 1, i as int),
            decreases len - 1 - i,
        {
            let ghost pre = tokens;
            let e = ty.tokens[i].clone();
            let ghost ge = e;
            tokens.push(e);
            i = i + 1;
            proof {
                crate::model::lemma_deep_view_push(pre, tokens, ge);
                assert(tokens.deep_view() =~= tv.subrange(k as int + 1, i as int));
            }
        }
        proof {
            assert(tokens.deep_view() =~= spec_unwrap_type(tv, ctor@));
        }
        TypeExpr { tokens }
    } else {
        ty.clone()
    }
}

/// Rewrites a type for expression position: when the last path segment
/// carries its arguments without a turbofish, a `::` is inserted before the
/// `<`, so that `Vec<Foo>` reads `Vec::<Foo>`.
pub open spec fn spec_expr_context_tokens(toks: Seq<Seq<char>>) -> Seq<Seq<char>> {
    let len = toks.len() as int;
    let k = spec_first_lt(toks);
    if k >= len || k == 0 {
        toks
    } else if toks[k - 1] == "::"@ {
        toks
    } else {
        toks.take(k) + seq!["::"@] + toks.skip(k)
    }
}

/// Rewrites a token list for expression position.
fn expr_context_tokens(toks: &Vec<String>) -> (r: Vec<String>)
    ensures
        r.deep_view() == spec_expr_context_tokens(toks.deep_view()),
{
    let ghost tv = toks.deep_view();
    let len = toks.len();
    let k = first_lt(toks);
    if k >= len || k == 0 {
        return toks.clone();
    }
    if crate::strutil::string_eq_str(&toks[k - 1], "::") {
        return toks.clone();
    }
    let mut out: Vec<String> = Vec::new();
    let mut i: usize = 0;
    while i < k
        invariant
            k <= toks@.len(),
            tv == toks.deep_view(),
            tv.len() == toks@.len(),
            i <= k,
            out.deep_view() == tv.take(i as int),
        decreases k - i,
    {
        let ghost pre = out;
        let e = toks[i].clone();
        let ghost ge = e;
        out.push(e);
        i = i + 1;
        proof {
            crate::model::lemma_deep_view_push(pre, out, ge);
            assert(out.deep_view() =~= tv.take(i as int));
        }
    }
    let ghost mid = out;
    let mut t = String::new();
    t.append("::");
    let ghost gt = t;
    out.push(t);
    proof {
        crate::model::lemma_deep_view_push(mid, out, gt);
        assert(out.deep_view() =~= tv.take(k as int) + seq!["::"@] + tv.subrange(
            k as int,
            k as int,
        ));
    }
    let mut i2: usize = k;
    while i2 < len
        invariant
            k <= i2 <= len,
            len == toks@.len(),
            tv == toks.deep_view(),
            tv.len() == toks@.len(),
            out.deep_view() == tv.take(k as int) + seq!["::"@] + tv.subrange(k as int, i2 as int),
        decreases len - i2,
    {
        let ghost pre = out;
        let e = toks[i2].clone();
        let ghost ge = e;
        out.push(e);
        i2 = i2 + 1;
        proof {
            crate::model::lemma_deep_view_push(pre, out, ge);
            assert(out.deep_view() =~= tv.take(k as int) + seq!["::"@] + tv.subrange(
                k as int,
                i2 as int,
            ));
        }
    }
    proof {
        assert(tv.subrange(k as int, len as int) =~= tv.skip(k as int));
        assert(out.deep_view() =~= spec_expr_context_tokens(tv));
    }
    out
}

/// The spaced rendering of type text rewritten for expression position.
pub open spec fn spec_type_in_expr_context(s: Seq<char>) -> Seq<char> {
    spec_spaced_join(spec_expr_context_tokens(spec_type_tokens(s)))
}

/// Rewrites a type written as text for expression position, returning the
/// spaced token form: `::foo::Vec<Baz>` becomes `:: foo :: Vec :: < Baz >`.
pub fn type_in_expr_context(s: &str) -> (r: String)
    ensures
        r@ == spec_type_in_expr_context(s@),
{
    let toks = type_tokens(s);
    let tf = expr_context_tokens(&toks);
    spaced_join(&tf)
}

/// The number of leading `super ::` marker pairs of a token list.
pub open spec fn spec_leading_supers(toks: Seq<Seq<char>>) -> int
    decreases toks.len(),
{
    if toks.len() >= 2 && toks[0] == "super"@ && toks[1] == "::"@ {
        1 + spec_leading_supers(toks.skip(2))
    } else {
        0
    }
}

/// The leading-marker count is bounded by half the token count.
pub proof fn lemma_leading_supers_bound(toks: Seq<Seq<char>>)
    ensures
        0 <= spec_leading_supers(toks),
        2 * spec_leading_supers(toks) <= toks.len(),
    decreases toks.len(),
{
    if toks.len() >= 2 && toks[0] == "super"@ && toks[1] == "::"@ {
        lemma_leading_supers_bound(toks.skip(2));
    }
}

/// Cancelling `c` pairs leaves exactly the remaining markers.
pub proof fn lemma_leading_supers_skip(toks: Seq<Seq<char>>, c: int)
    requires
        0 <= c <= spec_leading_supers(toks),
    ensures
        spec_leading_supers(toks.skip(2 * c)) == spec_leading_supers(toks) - c,
    decreases c,
{
    if c > 0 {
        lemma_leading_supers_bound(toks);
        assert(toks.skip(2).skip(2 * (c - 1)) =~= toks.skip(2 * c));
        lemma_leading_supers_skip(toks.skip(2), c - 1);
    } else {
        assert(toks.skip(0) =~= toks);
    }
}

/// The smaller of two values.
pub open spec fn spec_min(a: int, b: int) -> int {
    if a < b {
        a
    } else {
        b
    }
}

/// Cancels each leading `super ::` marker of the element type against one
/// segment of the namespace stack, innermost first, while both remain.  The
/// result is the remaining stack and the remaining element tokens; markers
/// beyond the stack depth are left unresolved rather than dropped.
pub open spec fn spec_cancel_supers(prefix: Seq<Seq<char>>, toks: Seq<Seq<char>>) -> (
    Seq<Seq<char>>,
    Seq<Seq<char>>,
) {
    let c = spec_min(spec_leading_supers(toks), prefix.len() as int);
    (prefix.take(prefix.len() - c), toks.skip(2 * c))
}

/// Counts the leading `super ::` marker pairs.
fn leading_supers(toks: &Vec<String>) -> (r: usize)
    ensures
        r as int == spec_leading_supers(toks.deep_view()),
        2 * r <= toks@.len(),
{
    let ghost tv = toks.deep_view();
    let n = toks.len();
    let mut i: usize = 0;
    proof {
        assert(tv.skip(0) =~= tv);
        lemma_leading_supers_bound(tv);
    }
    while i + 1 < n && crate::strutil::string_eq_str(&toks[i], "super") && crate::strutil::string_eq_str(
        &toks[i + 1],
        "::",
    )
        invariant
            n == toks@.len(),
            tv == toks.deep_view(),
            tv.len() == toks@.len(),
            i % 2 == 0,
            i <= n,
            spec_leading_supers(tv) == i as int / 2 + spec_leading_supers(tv.skip(i as int)),
            2 * spec_leading_supers(tv.skip(i as int)) <= tv.skip(i as int).len(),
        decreases n - i,
    {
        proof {
            let rest = tv.skip(i as int);
            assert(rest[0] == tv[i as int]);
            assert(rest[1] == tv[i as int + 1]);
            assert(rest.skip(2) =~= tv.skip(i as int + 2));
            lemma_leading_supers_bound(tv.skip(i as int + 2));
        }
        i = i + 2;
    }
    proof {
        let rest = tv.skip(i as int);
        if rest.len() >= 2 && rest[0] == "super"@ && rest[1] == "::"@ {
            assert(i + 1 < n);
            assert(rest[0] == tv[i as int]);
            assert(rest[1] == tv[i as int + 1]);
            assert(false);
        }
        assert(spec_leading_supers(rest) == 0);
    }
    i / 2
}

/// Cancels leading `super ::` markers against the namespace stack, giving
/// the remaining stack and element tokens.
pub fn cancel_supers(prefix: &Vec<String>, toks: &Vec<String>) -> (r: (Vec<String>, Vec<String>))
    ensures
        (r.0.deep_view(), r.1.deep_view()) == spec_cancel_supers(
            prefix.deep_view(),
            toks.deep_view(),
        ),
{
    let ghost pv = prefix.deep_view();
    let ghost tv = toks.deep_view();
    let s = leading_supers(toks);
    let plen = prefix.len();
    let c: usize = if s < plen {
        s
    } else {
        plen
    };
    let keep = plen - c;
    let mut new_prefix: Vec<String> = Vec::new();
    let mut i: usize = 0;
    while i < keep
        invariant
            keep <= prefix@.len(),
            pv == prefix.deep_view(),
            pv.len() == prefix@.len(),
            i <= keep,
            new_prefix.deep_view() == pv.take(i as int),
        decreases keep - i,
    {
        let ghost pre = new_prefix;
        let e = prefix[i].clone();
        let ghost ge = e;
        new_prefix.push(e);
        i = i + 1;
        proof {
            crate::model::lemma_deep_view_push(pre, new_prefix, ge);
            assert(new_prefix.deep_view() =~= pv.take(i as int));
        }
    }
    let tlen = toks.len();
    proof {
        assert(2 * (c as int) <= tlen as int);
    }
    let start = 2 * c;
    let mut new_toks: Vec<String> = Vec::new();
    let mut j: usize = start;
    proof {
        lemma_leading_supers_bound(tv);
    }
    while j < toks.len()
        invariant
            start <= j <= toks@.len() || (start >= toks@.len() && j == start),
            tv == toks.deep_view(),
            tv.len() == toks@.len(),
            new_toks.deep_view() == tv.subrange(start as int, (if j <= toks@.len() {
                j as int
            } else {
                start as int
            })),
            start <= toks@.len(),
        decreases toks@.len() - j,
    {
        let ghost pre = new_toks;
        let e = toks[j].clone();
        let ghost ge = e;
        new_toks.push(e);
        j = j + 1;
        proof {
            crate::model::lemma_deep_view_push(pre, new_toks, ge);
            assert(new_toks.deep_view() =~= tv.subrange(start as int, j as int));
        }
    }
    proof {
        assert(tv.subrange(start as int, tv.len() as int) =~= tv.skip(start as int));
        assert(new_prefix.deep_view() =~= pv.take(pv.len() - c));
        assert(new_toks.deep_view() =~= tv.skip(2 * c));
    }
    (new_prefix, new_toks)
}

/// Path-rewrite correctness: a repeated element declared with exactly as
/// many `go up` markers as the reference point is deep rewrites to zero
/// residual markers and an empty remaining prefix; one marker more leaves
/// exactly one marker unresolved.
pub proof fn lemma_path_rewrite(prefix: Seq<Seq<char>>, toks: Seq<Seq<char>>)
    ensures
        spec_leading_supers(toks) == prefix.len() ==> {
            let r = spec_cancel_supers(prefix, toks);
            r.0.len() == 0 && spec_leading_supers(r.1) == 0
        },
        spec_leading_supers(toks) == prefix.len() + 1 ==> {
            let r = spec_cancel_supers(prefix, toks);
            r.0.len() == 0 && spec_leading_supers(r.1) == 1
        },
{
    let n = spec_leading_supers(toks);
    lemma_leading_supers_bound(toks);
    if n == prefix.len() {
        lemma_leading_supers_skip(toks, n);
    }
    if n == prefix.len() + 1 {
        lemma_leading_supers_skip(toks, n - 1);
    }
}

/// The built-in scalar element types, which are never prefixed with a
/// namespace path.
pub open spec fn spec_is_builtin_elem(toks: Seq<Seq<char>>) -> bool {
    toks.len() == 1 && (toks[0] == "bool"@ || toks[0] == "u32"@ || toks[0] == "i32"@ || toks[0]
        == "u64"@ || toks[0] == "i64"@ || toks[0] == "f32"@ || toks[0] == "f64"@)
}

/// Whether an element type is a built-in scalar.
pub fn is_builtin_elem(toks: &Vec<String>) -> (r: bool)
    ensures
        r == spec_is_builtin_elem(toks.deep_view()),
{
    if toks.len() != 1 {
        return false;
    }
    let t = &toks[0];
    crate::strutil::string_eq_str(t, "bool") || crate::strutil::string_eq_str(t, "u32")
        || crate::strutil::string_eq_str(t, "i32") || crate::strutil::string_eq_str(t, "u64")
        || crate::strutil::string_eq_str(t, "i64") || crate::strutil::string_eq_str(t, "f32")
        || crate::strutil::string_eq_str(t, "f64")
}

} // verus!
