//! The source model loader.
//!
//! Parses one generated type-definition file into a [`SourceUnit`]: the
//! struct-like and enum-like declarations in document order, each with the
//! namespace stack it was found under.  Declarations of any other sort are
//! skipped.  A file that cannot be parsed is a fatal error; no partial model
//! is returned.  [`spec_parse`] fixes the model as a function of the input
//! text, and [`parse_source`] is proved to compute it.

use vstd::prelude::*;

use crate::error::Error;
use crate::lexer::{spec_step, spec_tokenize, tokenize, TokKind, Token, TokenV};
use crate::model::{spaced_join, spec_spaced_join, Attr, AttrV, Decl, DeclV, EnumDecl, EnumDeclV,
    FieldDecl, FieldDeclV, Meta, MetaV, SourceUnit, StructDecl, StructDeclV, TypeExpr, Variant,
    VariantV};
use crate::strutil::str_eq;

verus! {

/// Whether the token at `p` is the punctuation `s`.
pub open spec fn sv_punct(ts: Seq<TokenV>, p: int, s: Seq<char>) -> bool {
    0 <= p < ts.len() && ts[p].kind == TokKind::Punct && ts[p].text == s
}

/// Whether the token at `p` is the word `s`.
pub open spec fn sv_word(ts: Seq<TokenV>, p: int, s: Seq<char>) -> bool {
    0 <= p < ts.len() && ts[p].kind == TokKind::Word && ts[p].text == s
}

/// Whether the token at `p` is any word.
pub open spec fn sv_any_word(ts: Seq<TokenV>, p: int) -> bool {
    0 <= p < ts.len() && ts[p].kind == TokKind::Word
}

/// Whether the token at `pos` is the punctuation `s`.
fn tok_punct(toks: &Vec<Token>, pos: usize, s: &str) -> (r: bool)
    ensures
        r == sv_punct(toks.deep_view(), pos as int, s@),
        r ==> pos < toks@.len(),
{
    if pos < toks.len() {
        let t = &toks[pos];
        proof {
            assert(t.deep_view() == toks.deep_view()[pos as int]);
        }
        match t.kind {
            TokKind::Punct => str_eq(t.text.as_str(), s),
            _ => false,
        }
    } else {
        false
    }
}

/// Whether the token at `pos` is the word `s`.
fn tok_word(toks: &Vec<Token>, pos: usize, s: &str) -> (r: bool)
    ensures
        r == sv_word(toks.deep_view(), pos as int, s@),
        r ==> pos < toks@.len(),
{
    if pos < toks.len() {
        let t = &toks[pos];
        proof {
            assert(t.deep_view() == toks.deep_view()[pos as int]);
        }
        match t.kind {
            TokKind::Word => str_eq(t.text.as_str(), s),
            _ => false,
        }
    } else {
        false
    }
}

/// Whether the token at `pos` is any word.
fn tok_any_word(toks: &Vec<Token>, pos: usize) -> (r: bool)
    ensures
        r == sv_any_word(toks.deep_view(), pos as int),
        r ==> pos < toks@.len(),
{
    if pos < toks.len() {
        proof {
            assert(toks[pos as int].deep_view() == toks.deep_view()[pos as int]);
        }
        match toks[pos].kind {
            TokKind::Word => true,
            _ => false,
        }
    } else {
        false
    }
}

/// Scans past a nested parenthesized group inside an annotation's argument
/// list: the position and depth after the scan.
pub open spec fn spec_paren_scan(raw: Seq<TokenV>, pos: int, end: int, depth: int) -> (int, int)
    decreases end - pos,
{
    if pos < 0 || pos >= end || depth <= 0 {
        (pos, depth)
    } else {
        let d2 = if sv_punct(raw, pos, "("@) {
            if depth < usize::MAX as int {
                depth + 1
            } else {
                depth
            }
        } else if sv_punct(raw, pos, ")"@) {
            depth - 1
        } else {
            depth
        };
        spec_paren_scan(raw, pos + 1, end, d2)
    }
}

/// Scans past a nested parenthesized group.
fn paren_scan(raw: &Vec<Token>, pos: usize, end: usize, depth: usize) -> (r: (usize, usize))
    requires
        pos <= end <= raw@.len(),
    ensures
        spec_paren_scan(raw.deep_view(), pos as int, end as int, depth as int) == (
        r.0 as int,
        r.1 as int,
        ),
        pos <= r.0 <= end,
    decreases end - pos,
{
    if pos >= end || depth == 0 {
        (pos, depth)
    } else {
        let d2: usize = if tok_punct(raw, pos, "(") {
            if depth < usize::MAX {
                depth + 1
            } else {
                depth
            }
        } else if tok_punct(raw, pos, ")") {
            depth - 1
        } else {
            depth
        };
        paren_scan(raw, pos + 1, end, d2)
    }
}

/// One entry of an annotation's argument list and the comma after it, then
/// the rest; a list that does not fit the expected shape yields nothing.
pub open spec fn spec_metas_loop(raw: Seq<TokenV>, pos: int, end: int, acc: Seq<MetaV>) -> Option<
    Seq<MetaV>,
>
    decreases end - pos, 1int,
{
    if pos >= end {
        Some(acc)
    } else if !sv_any_word(raw, pos) {
        None
    } else {
        let name = raw[pos].text;
        let p1 = pos + 1;
        if sv_punct(raw, p1, "="@) {
            if p1 + 1 < end && raw[p1 + 1].kind == TokKind::StrLit {
                spec_metas_comma(
                    raw,
                    p1 + 2,
                    end,
                    acc.push(MetaV::NameValue(name, raw[p1 + 1].text)),
                )
            } else {
                None
            }
        } else if p1 < end && sv_punct(raw, p1, "("@) {
            let scan = spec_paren_scan(raw, p1 + 1, end, 1);
            if scan.1 > 0 {
                None
            } else {
                spec_metas_comma(raw, spec_step(p1, scan.0, end), end, acc)
            }
        } else {
            spec_metas_comma(raw, p1, end, acc.push(MetaV::Word(name)))
        }
    }
}

/// The separating comma between entries, then the rest of the list.
pub open spec fn spec_metas_comma(raw: Seq<TokenV>, pos: int, end: int, acc: Seq<MetaV>) -> Option<
    Seq<MetaV>,
>
    decreases end - pos, 0int,
{
    if pos >= end {
        Some(acc)
    } else if sv_punct(raw, pos, ","@) {
        spec_metas_loop(raw, pos + 1, end, acc)
    } else {
        None
    }
}

/// The structured entries of an annotation's argument list; a list that
/// does not fit the expected shape yields no entries, so the annotation
/// simply contributes nothing.
pub open spec fn spec_metas(raw: Seq<TokenV>) -> Seq<MetaV> {
    if raw.len() < 2 || !sv_punct(raw, 0, "("@) || !sv_punct(raw, raw.len() - 1, ")"@) {
        Seq::<MetaV>::empty()
    } else {
        match spec_metas_loop(raw, 1, raw.len() - 1, Seq::<MetaV>::empty()) {
            Some(ms) => ms,
            None => Seq::<MetaV>::empty(),
        }
    }
}

/// Parses entries from `pos` on, appending to `acc`.
fn metas_rec(raw: &Vec<Token>, pos: usize, end: usize, acc: &mut Vec<Meta>) -> (ok: bool)
    requires
        pos <= end,
        end < raw@.len(),
    ensures
        (match spec_metas_loop(raw.deep_view(), pos as int, end as int, old(acc).deep_view()) {
            Some(ms) => ok && final(acc).deep_view() == ms,
            None => !ok,
        }),
    decreases end - pos, 1int,
{
    let _token_count = raw.len();
    let ghost rv = raw.deep_view();
    if pos >= end {
        return true;
    }
    if !tok_any_word(raw, pos) {
        return false;
    }
    let name = raw[pos].text.clone();
    proof {
        assert(raw[pos as int].deep_view() == rv[pos as int]);
    }
    let p1 = pos + 1;
    if tok_punct(raw, p1, "=") {
        if p1 + 1 < end {
            let is_lit = match raw[p1 + 1].kind {
                TokKind::StrLit => true,
                _ => false,
            };
            proof {
                assert(raw[p1 as int + 1].deep_view() == rv[p1 as int + 1]);
            }
            if is_lit {
                let ghost pre = *acc;
                let m = Meta::NameValue(name, raw[p1 + 1].text.clone());
                let ghost gm = m;
                acc.push(m);
                proof {
                    crate::model::lemma_deep_view_push(pre, *acc, gm);
                }
                metas_comma_rec(raw, p1 + 2, end, acc)
            } else {
                false
            }
        } else {
            false
        }
    } else if p1 < end && tok_punct(raw, p1, "(") {
        let scan = paren_scan(raw, p1 + 1, end, 1);
        if scan.1 > 0 {
            false
        } else {
            metas_comma_rec(raw, scan.0, end, acc)
        }
    } else {
        let ghost pre = *acc;
        let m = Meta::Word(name);
        let ghost gm = m;
        acc.push(m);
        proof {
            crate::model::lemma_deep_view_push(pre, *acc, gm);
        }
        metas_comma_rec(raw, p1, end, acc)
    }
}

/// Consumes the separating comma, then the rest of the list.
fn metas_comma_rec(raw: &Vec<Token>, pos: usize, end: usize, acc: &mut Vec<Meta>) -> (ok: bool)
    requires
        pos <= end,
        end < raw@.len(),
    ensures
        (match spec_metas_comma(raw.deep_view(), pos as int, end as int, old(acc).deep_view()) {
            Some(ms) => ok && final(acc).deep_view() == ms,
            None => !ok,
        }),
    decreases end - pos, 0int,
{
    if pos >= end {
        true
    } else if tok_punct(raw, pos, ",") {
        metas_rec(raw, pos + 1, end, acc)
    } else {
        false
    }
}

/// Parses the argument list of an annotation into structured entries.
fn parse_metas(raw: &Vec<Token>) -> (r: Vec<Meta>)
    ensures
        r.deep_view() == spec_metas(raw.deep_view()),
{
    let n = raw.len();
    if n < 2 || !tok_punct(raw, 0, "(") || !tok_punct(raw, n - 1, ")") {
        let r: Vec<Meta> = Vec::new();
        proof {
            assert(r.deep_view() =~= Seq::<MetaV>::empty());
        }
        return r;
    }
    let mut acc: Vec<Meta> = Vec::new();
    proof {
        assert(acc.deep_view() =~= Seq::<MetaV>::empty());
    }
    let ok = metas_rec(raw, 1, n - 1, &mut acc);
    if ok {
        acc
    } else {
        let r: Vec<Meta> = Vec::new();
        proof {
            assert(r.deep_view() =~= Seq::<MetaV>::empty());
        }
        r
    }
}

/// The dotted tail of an attribute path: `:: word` pairs appended to the
/// path read so far, and the position after them.
pub open spec fn spec_attr_path(ts: Seq<TokenV>, p: int, acc: Seq<char>) -> Option<(Seq<char>, int)>
    decreases ts.len() - p,
{
    if sv_punct(ts, p, "::"@) {
        if sv_any_word(ts, p + 1) {
            spec_attr_path(ts, p + 2, acc + "::"@ + ts[p + 1].text)
        } else {
            None
        }
    } else {
        Some((acc, p))
    }
}

/// Reads the dotted tail of an attribute path into `path`.
fn attr_path_rec(toks: &Vec<Token>, p: usize, path: &mut String) -> (r: Result<usize, Error>)
    requires
        p <= toks@.len(),
    ensures
        (match spec_attr_path(toks.deep_view(), p as int, old(path)@) {
            Some(pr) => r matches Ok(np) && np as int == pr.1 && final(path)@ == pr.0 && p <= np
                <= toks@.len(),
            None => r == Err::<usize, Error>(Error::UnparsableSource),
        }),
    decreases toks@.len() - p,
{
    let _token_count = toks.len();
    if tok_punct(toks, p, "::") {
        if tok_any_word(toks, p + 1) {
            proof {
                assert(toks[p as int + 1].deep_view() == toks.deep_view()[p as int + 1]);
            }
            path.append("::");
            path.append(toks[p + 1].text.as_str());
            attr_path_rec(toks, p + 2, path)
        } else {
            Err(Error::UnparsableSource)
        }
    } else {
        Ok(p)
    }
}

/// The raw tokens of one attribute up to its matching close bracket, and
/// the position after it; nothing when the bracket never closes.
pub open spec fn spec_attr_capture(ts: Seq<TokenV>, p: int, depth: int, acc: Seq<TokenV>) -> Option<
    (Seq<TokenV>, int),
>
    decreases ts.len() - p,
{
    if p < 0 || p >= ts.len() {
        None
    } else if sv_punct(ts, p, "["@) {
        let d2 = if depth < usize::MAX as int {
            depth + 1
        } else {
            depth
        };
        spec_attr_capture(ts, p + 1, d2, acc.push(ts[p]))
    } else if sv_punct(ts, p, "]"@) {
        if depth == 0 {
            Some((acc, p + 1))
        } else {
            spec_attr_capture(ts, p + 1, depth - 1, acc.push(ts[p]))
        }
    } else {
        spec_attr_capture(ts, p + 1, depth, acc.push(ts[p]))
    }
}

/// Captures one attribute's raw tokens into `raw`.
fn attr_capture_rec(toks: &Vec<Token>, p: usize, depth: usize, raw: &mut Vec<Token>) -> (r: Result<
    usize,
    Error,
>)
    requires
        p <= toks@.len(),
    ensures
        (match spec_attr_capture(toks.deep_view(), p as int, depth as int, old(raw).deep_view()) {
            Some(pr) => r matches Ok(np) && np as int == pr.1 && final(raw).deep_view() == pr.0
                && p < np <= toks@.len(),
            None => r == Err::<usize, Error>(Error::UnparsableSource),
        }),
    decreases toks@.len() - p,
{
    let _token_count = toks.len();
    if p >= toks.len() {
        return Err(Error::UnparsableSource);
    }
    proof {
        assert(toks[p as int].deep_view() == toks.deep_view()[p as int]);
    }
    if tok_punct(toks, p, "[") {
        let d2: usize = if depth < usize::MAX {
            depth + 1
        } else {
            depth
        };
        let ghost pre = *raw;
        let t = Token { kind: toks[p].kind, text: toks[p].text.clone() };
        let ghost gt = t;
        raw.push(t);
        proof {
            crate::model::lemma_deep_view_push(pre, *raw, gt);
        }
        attr_capture_rec(toks, p + 1, d2, raw)
    } else if tok_punct(toks, p, "]") {
        if depth == 0 {
            Ok(p + 1)
        } else {
            let ghost pre = *raw;
            let t = Token { kind: toks[p].kind, text: toks[p].text.clone() };
            let ghost gt = t;
            raw.push(t);
            proof {
                crate::model::lemma_deep_view_push(pre, *raw, gt);
            }
            attr_capture_rec(toks, p + 1, depth - 1, raw)
        }
    } else {
        let ghost pre = *raw;
        let t = Token { kind: toks[p].kind, text: toks[p].text.clone() };
        let ghost gt = t;
        raw.push(t);
        proof {
            crate::model::lemma_deep_view_push(pre, *raw, gt);
        }
        attr_capture_rec(toks, p + 1, depth, raw)
    }
}

/// The texts of a token list, in order.
pub open spec fn spec_token_texts(ts: Seq<TokenV>) -> Seq<Seq<char>> {
    Seq::new(ts.len(), |i: int| ts[i].text)
}

/// One attribute's ghost form, built from its path and raw tokens.
pub open spec fn spec_attr_of(path: Seq<char>, raw: Seq<TokenV>) -> AttrV {
    AttrV {
        path: path,
        tokens: spec_spaced_join(spec_token_texts(raw)),
        metas: spec_metas(raw),
    }
}

/// The run of outer attributes from `pos` on, appended to `acc`, and the
/// position after them.  Inner attributes are skipped without being
/// recorded.
pub open spec fn spec_attrs_loop(ts: Seq<TokenV>, pos: int, acc: Seq<AttrV>) -> Result<
    (Seq<AttrV>, int),
    Error,
>
    decreases ts.len() - pos,
{
    if !sv_punct(ts, pos, "#"@) {
        Ok((acc, pos))
    } else {
        let p0 = pos + 1;
        let inner = sv_punct(ts, p0, "!"@);
        let p1 = if inner {
            p0 + 1
        } else {
            p0
        };
        if !sv_punct(ts, p1, "["@) {
            Err(Error::UnparsableSource)
        } else {
            let p2 = p1 + 1;
            let path_r = if sv_any_word(ts, p2) {
                spec_attr_path(ts, p2 + 1, ts[p2].text)
            } else {
                Some((Seq::<char>::empty(), p2))
            };
            match path_r {
                None => Err(Error::UnparsableSource),
                Some(pr) => match spec_attr_capture(ts, pr.1, 0, Seq::<TokenV>::empty()) {
                    None => Err(Error::UnparsableSource),
                    Some(cr) => {
                        let acc2 = if inner {
                            acc
                        } else {
                            acc.push(spec_attr_of(pr.0, cr.0))
                        };
                        spec_attrs_loop(ts, spec_step(pos, cr.1, ts.len() as int), acc2)
                    },
                },
            }
        }
    }
}

/// Parses the run of outer attributes from `pos` on, appending to `acc`.
fn attrs_rec(toks: &Vec<Token>, pos: usize, acc: &mut Vec<Attr>) -> (r: Result<usize, Error>)
    requires
        pos <= toks@.len(),
    ensures
        (match spec_attrs_loop(toks.deep_view(), pos as int, old(acc).deep_view()) {
            Ok(pr) => r matches Ok(p) && p as int == pr.1 && final(acc).deep_view() == pr.0 && pos
                <= p <= toks@.len(),
            Err(e) => r == Err::<usize, Error>(e),
        }),
    decreases toks@.len() - pos,
{
    let _token_count = toks.len();
    let ghost tv = toks.deep_view();
    if !tok_punct(toks, pos, "#") {
        return Ok(pos);
    }
    let p0 = pos + 1;
    let inner = tok_punct(toks, p0, "!");
    let p1 = if inner {
        p0 + 1
    } else {
        p0
    };
    if !tok_punct(toks, p1, "[") {
        return Err(Error::UnparsableSource);
    }
    let p2 = p1 + 1;
    let mut path = String::new();
    let p3: usize;
    if tok_any_word(toks, p2) {
        proof {
            assert(toks[p2 as int].deep_view() == tv[p2 as int]);
        }
        path.append(toks[p2].text.as_str());
        proof {
            assert(path@ =~= tv[p2 as int].text);
        }
        match attr_path_rec(toks, p2 + 1, &mut path) {
            Ok(p) => {
                p3 = p;
            },
            Err(e) => {
                return Err(e);
            },
        }
    } else {
        proof {
            assert(path@ =~= Seq::<char>::empty());
        }
        p3 = p2;
    }
    let mut raw: Vec<Token> = Vec::new();
    proof {
        assert(raw.deep_view() =~= Seq::<TokenV>::empty());
    }
    let p4 = match attr_capture_rec(toks, p3, 0, &mut raw) {
        Ok(p) => p,
        Err(_) => {
            return Err(Error::UnparsableSource);
        },
    };
    if !inner {
        let mut texts: Vec<String> = Vec::new();
        let mut k: usize = 0;
        proof {
            assert(texts.deep_view() =~= spec_token_texts(raw.deep_view()).take(0));
        }
        while k < raw.len()
            invariant
                k <= raw@.len(),
                texts.deep_view() == spec_token_texts(raw.deep_view()).take(k as int),
            decreases raw@.len() - k,
        {
            let ghost pre = texts;
            let t = raw[k].text.clone();
            let ghost gt = t;
            texts.push(t);
            k = k + 1;
            proof {
                crate::model::lemma_deep_view_push(pre, texts, gt);
                assert(raw[k - 1].deep_view() == raw.deep_view()[k - 1]);
                assert(texts.deep_view() =~= spec_token_texts(raw.deep_view()).take(k as int));
            }
        }
        proof {
            assert(spec_token_texts(raw.deep_view()).take(raw@.len() as int) =~= spec_token_texts(
                raw.deep_view(),
            ));
        }
        let tokens = spaced_join(&texts);
        let metas = parse_metas(&raw);
        let ghost pre = *acc;
        let a = Attr { path, tokens, metas };
        let ghost ga = a;
        acc.push(a);
        proof {
            crate::model::lemma_deep_view_push(pre, *acc, ga);
        }
    }
    attrs_rec(toks, p4, acc)
}

/// Skips one declaration the model does not keep, from `p` at brace depth
/// `depth`: everything up to a terminating `;` or past one balanced brace
/// block.
pub open spec fn spec_skip_item(ts: Seq<TokenV>, p: int, depth: int) -> Result<int, Error>
    decreases ts.len() - p,
{
    if p < 0 || p >= ts.len() {
        if depth > 0 {
            Err(Error::UnparsableSource)
        } else {
            Ok(ts.len() as int)
        }
    } else if sv_punct(ts, p, "{"@) {
        let d2 = if depth < usize::MAX as int {
            depth + 1
        } else {
            depth
        };
        spec_skip_item(ts, p + 1, d2)
    } else if sv_punct(ts, p, "}"@) {
        if depth == 0 {
            Err(Error::UnparsableSource)
        } else if depth == 1 {
            Ok(p + 1)
        } else {
            spec_skip_item(ts, p + 1, depth - 1)
        }
    } else if depth == 0 && sv_punct(ts, p, ";"@) {
        Ok(p + 1)
    } else {
        spec_skip_item(ts, p + 1, depth)
    }
}

/// Skips one declaration the model does not keep.
fn skip_item_rec(toks: &Vec<Token>, p: usize, depth: usize) -> (r: Result<usize, Error>)
    requires
        p <= toks@.len(),
    ensures
        (match spec_skip_item(toks.deep_view(), p as int, depth as int) {
            Ok(np) => r matches Ok(q) && q as int == np && p <= q <= toks@.len(),
            Err(e) => r == Err::<usize, Error>(e),
        }),
    decreases toks@.len() - p,
{
    let _token_count = toks.len();
    if p >= toks.len() {
        if depth > 0 {
            Err(Error::UnparsableSource)
        } else {
            Ok(toks.len())
        }
    } else if tok_punct(toks, p, "{") {
        let d2: usize = if depth < usize::MAX {
            depth + 1
        } else {
            depth
        };
        skip_item_rec(toks, p + 1, d2)
    } else if tok_punct(toks, p, "}") {
        if depth == 0 {
            Err(Error::UnparsableSource)
        } else if depth == 1 {
            Ok(p + 1)
        } else {
            skip_item_rec(toks, p + 1, depth - 1)
        }
    } else if depth == 0 && tok_punct(toks, p, ";") {
        Ok(p + 1)
    } else {
        skip_item_rec(toks, p + 1, depth)
    }
}

/// Scans past a balanced group of the bracket pair chosen by `open_paren`:
/// the position and depth after the scan.
pub open spec fn spec_group_scan(ts: Seq<TokenV>, p: int, depth: int, open_paren: bool) -> (
    int,
    int,
)
    decreases ts.len() - p,
{
    if p < 0 || p >= ts.len() || depth <= 0 {
        (p, depth)
    } else {
        let more = if open_paren {
            sv_punct(ts, p, "("@)
        } else {
            sv_punct(ts, p, "{"@)
        };
        let less = if open_paren {
            sv_punct(ts, p, ")"@)
        } else {
            sv_punct(ts, p, "}"@)
        };
        let d2 = if more && depth < usize::MAX as int {
            depth + 1
        } else if less {
            depth - 1
        } else {
            depth
        };
        spec_group_scan(ts, p + 1, d2, open_paren)
    }
}

/// The position after the parenthesized or braced payload opening at
/// `pos`; an unterminated payload is a fatal error.
pub open spec fn spec_skip_group(ts: Seq<TokenV>, pos: int) -> Result<int, Error> {
    let open_paren = sv_punct(ts, pos, "("@);
    let scan = spec_group_scan(ts, pos + 1, 1, open_paren);
    if scan.1 > 0 {
        Err(Error::UnparsableSource)
    } else {
        Ok(scan.0)
    }
}

/// Scans past a balanced group of the chosen bracket pair.
fn group_scan(toks: &Vec<Token>, p: usize, depth: usize, open_paren: bool) -> (r: (usize, usize))
    requires
        p <= toks@.len(),
    ensures
        spec_group_scan(toks.deep_view(), p as int, depth as int, open_paren) == (
        r.0 as int,
        r.1 as int,
        ),
        p <= r.0 <= toks@.len(),
    decreases toks@.len() - p,
{
    let _token_count = toks.len();
    if p >= toks.len() || depth == 0 {
        (p, depth)
    } else {
        let more = if open_paren {
            tok_punct(toks, p, "(")
        } else {
            tok_punct(toks, p, "{")
        };
        let less = if open_paren {
            tok_punct(toks, p, ")")
        } else {
            tok_punct(toks, p, "}")
        };
        let d2: usize = if more && depth < usize::MAX {
            depth + 1
        } else if less {
            depth - 1
        } else {
            depth
        };
        group_scan(toks, p + 1, d2, open_paren)
    }
}

/// Skips the parenthesized or braced payload opening at `pos`.
fn skip_group(toks: &Vec<Token>, pos: usize) -> (r: Result<usize, Error>)
    requires
        pos < toks@.len(),
    ensures
        (match spec_skip_group(toks.deep_view(), pos as int) {
            Ok(np) => r matches Ok(q) && q as int == np && pos < q <= toks@.len(),
            Err(e) => r == Err::<usize, Error>(e),
        }),
{
    let _token_count = toks.len();
    let open_paren = tok_punct(toks, pos, "(");
    let scan = group_scan(toks, pos + 1, 1, open_paren);
    if scan.1 > 0 {
        Err(Error::UnparsableSource)
    } else {
        Ok(scan.0)
    }
}

/// The value of a decimal discriminant text read from `i` with `value`
/// carried so far; nothing on a non-digit or out-of-range value.
pub open spec fn spec_disc_loop(cs: Seq<char>, i: int, value: int) -> Option<int>
    decreases cs.len() - i,
{
    if i < 0 || i >= cs.len() {
        Some(value)
    } else if !('0' <= cs[i] <= '9') {
        None
    } else if value > 214748364 {
        None
    } else {
        let v2 = value * 10 + (cs[i] as int - '0' as int);
        if v2 > 0x8000_0000 {
            None
        } else {
            spec_disc_loop(cs, i + 1, v2)
        }
    }
}

/// The signed value of a decimal discriminant token, when it fits a
/// 32-bit signed integer.
pub open spec fn spec_discriminant(text: Seq<char>, negative: bool) -> Option<int> {
    if text.len() == 0 {
        None
    } else {
        match spec_disc_loop(text, 0, 0) {
            None => None,
            Some(v) => if negative {
                if v > 0x8000_0000 {
                    None
                } else {
                    Some(0 - v)
                }
            } else {
                if v > 0x7fff_ffff {
                    None
                } else {
                    Some(v)
                }
            },
        }
    }
}

/// Reads digits from `i` with `value` carried so far.
fn disc_rec(cs: &Vec<char>, i: usize, value: i64) -> (r: Option<i64>)
    requires
        i <= cs@.len(),
        0 <= value <= 0x8000_0000i64,
    ensures
        (match spec_disc_loop(cs@, i as int, value as int) {
            Some(v) => r matches Some(x) && x as int == v && 0 <= x <= 0x8000_0000i64,
            None => r is None,
        }),
    decreases cs@.len() - i,
{
    if i >= cs.len() {
        Some(value)
    } else {
        let c = cs[i];
        if !('0' <= c && c <= '9') {
            None
        } else if value > 214748364i64 {
            None
        } else {
            let d = (c as u32) - ('0' as u32);
            let v2 = value * 10 + (d as i64);
            if v2 > 0x8000_0000i64 {
                None
            } else {
                disc_rec(cs, i + 1, v2)
            }
        }
    }
}

/// Parses a decimal discriminant token, with an optional leading minus
/// already noted by the caller.
fn parse_discriminant(text: &String, negative: bool) -> (r: Option<i32>)
    ensures
        (match spec_discriminant(text@, negative) {
            Some(v) => r matches Some(x) && x as int == v,
            None => r is None,
        }),
{
    let cs = crate::strutil::to_chars(text.as_str());
    if cs.len() == 0 {
        return None;
    }
    match disc_rec(&cs, 0, 0) {
        None => None,
        Some(v) => {
            if negative {
                if v > 0x8000_0000i64 {
                    None
                } else {
                    Some((0i64 - v) as i32)
                }
            } else {
                if v > 0x7fff_ffffi64 {
                    None
                } else {
                    Some(v as i32)
                }
            }
        },
    }
}

/// The first position at or after `p` holding the comma or closing brace
/// that ends a variant's discriminant expression.
pub open spec fn spec_vexpr_end(ts: Seq<TokenV>, p: int) -> int
    decreases ts.len() - p,
{
    if p < 0 || p >= ts.len() {
        ts.len() as int
    } else if sv_punct(ts, p, ","@) || sv_punct(ts, p, "}"@) {
        p
    } else {
        spec_vexpr_end(ts, p + 1)
    }
}

/// Finds the end of a variant's discriminant expression.
fn vexpr_end(toks: &Vec<Token>, p: usize) -> (r: usize)
    requires
        p <= toks@.len(),
    ensures
        r as int == spec_vexpr_end(toks.deep_view(), p as int),
        p <= r <= toks@.len(),
    decreases toks@.len() - p,
{
    let _token_count = toks.len();
    if p >= toks.len() {
        toks.len()
    } else if tok_punct(toks, p, ",") || tok_punct(toks, p, "}") {
        p
    } else {
        vexpr_end(toks, p + 1)
    }
}

/// The variant list of an enum-like declaration from `pos` on, `next`
/// being the number an implicit discriminant takes, and the position past
/// the closing brace.
pub open spec fn spec_variants_loop(
    ts: Seq<TokenV>,
    pos: int,
    next: int,
    acc: Seq<VariantV>,
) -> Result<(Seq<VariantV>, int), Error>
    decreases ts.len() - pos,
{
    if pos < 0 || pos >= ts.len() {
        Err(Error::UnparsableSource)
    } else if sv_punct(ts, pos, "}"@) {
        Ok((acc, pos + 1))
    } else {
        match spec_attrs_loop(ts, pos, Seq::<AttrV>::empty()) {
            Err(e) => Err(e),
            Ok(ar) => {
                let p = ar.1;
                if sv_punct(ts, p, "}"@) {
                    Ok((acc, p + 1))
                } else if !sv_any_word(ts, p) {
                    Err(Error::UnparsableSource)
                } else {
                    let name = ts[p].text;
                    let p1 = p + 1;
                    let step: Result<(int, int), Error> = if sv_punct(ts, p1, "("@) || sv_punct(
                        ts,
                        p1,
                        "{"@,
                    ) {
                        match spec_skip_group(ts, p1) {
                            Err(e) => Err(e),
                            Ok(p2) => Ok((next, p2)),
                        }
                    } else if sv_punct(ts, p1, "="@) {
                        let p2 = p1 + 1;
                        let neg = sv_punct(ts, p2, "-"@);
                        let p3 = if neg {
                            p2 + 1
                        } else {
                            p2
                        };
                        let parsed: Option<int> = if 0 <= p3 < ts.len() && ts[p3].kind
                            == TokKind::Num {
                            spec_discriminant(ts[p3].text, neg)
                        } else {
                            None
                        };
                        let number = match parsed {
                            Some(v) => v,
                            None => next,
                        };
                        Ok((number, spec_vexpr_end(ts, p3)))
                    } else {
                        Ok((next, p1))
                    };
                    match step {
                        Err(e) => Err(e),
                        Ok(st) => {
                            let number = st.0;
                            let acc2 = acc.push(VariantV { name: name, number: number });
                            let next2 = if number < 0x7fff_ffff {
                                number + 1
                            } else {
                                number
                            };
                            let after = if sv_punct(ts, st.1, ","@) {
                                st.1 + 1
                            } else {
                                st.1
                            };
                            if after <= pos {
                                Err(Error::UnparsableSource)
                            } else {
                                spec_variants_loop(
                                    ts,
                                    spec_step(pos, after, ts.len() as int),
                                    next2,
                                    acc2,
                                )
                            }
                        },
                    }
                }
            },
        }
    }
}

/// Parses the variant list from `pos` on, appending to `acc`.
fn variants_rec(toks: &Vec<Token>, pos: usize, next: i32, acc: &mut Vec<Variant>) -> (r: Result<
    usize,
    Error,
>)
    requires
        pos <= toks@.len(),
    ensures
        (match spec_variants_loop(toks.deep_view(), pos as int, next as int, old(
            acc,
        ).deep_view()) {
            Ok(pr) => r matches Ok(p) && p as int == pr.1 && final(acc).deep_view() == pr.0 && pos
                < p <= toks@.len(),
            Err(e) => r == Err::<usize, Error>(e),
        }),
    decreases toks@.len() - pos,
{
    let _token_count = toks.len();
    let ghost tv = toks.deep_view();
    if pos >= toks.len() {
        return Err(Error::UnparsableSource);
    }
    if tok_punct(toks, pos, "}") {
        return Ok(pos + 1);
    }
    let mut dropped: Vec<Attr> = Vec::new();
    proof {
        assert(dropped.deep_view() =~= Seq::<AttrV>::empty());
    }
    let p = match attrs_rec(toks, pos, &mut dropped) {
        Ok(p) => p,
        Err(e) => {
            return Err(e);
        },
    };
    if tok_punct(toks, p, "}") {
        return Ok(p + 1);
    }
    if !tok_any_word(toks, p) {
        return Err(Error::UnparsableSource);
    }
    proof {
        assert(toks[p as int].deep_view() == tv[p as int]);
    }
    let name = toks[p].text.clone();
    let p1 = p + 1;
    let number: i32;
    let after_expr: usize;
    if tok_punct(toks, p1, "(") || tok_punct(toks, p1, "{") {
        match skip_group(toks, p1) {
            Ok(p2) => {
                number = next;
                after_expr = p2;
            },
            Err(e) => {
                return Err(e);
            },
        }
    } else if tok_punct(toks, p1, "=") {
        let p2 = p1 + 1;
        let neg = tok_punct(toks, p2, "-");
        let p3 = if neg {
            p2 + 1
        } else {
            p2
        };
        let mut parsed: Option<i32> = None;
        if p3 < toks.len() {
            proof {
                assert(toks[p3 as int].deep_view() == tv[p3 as int]);
            }
            let is_num = match toks[p3].kind {
                TokKind::Num => true,
                _ => false,
            };
            if is_num {
                parsed = parse_discriminant(&toks[p3].text, neg);
            }
        }
        number = match parsed {
            Some(v) => v,
            None => next,
        };
        after_expr = vexpr_end(toks, p3);
    } else {
        number = next;
        after_expr = p1;
    }
    let ghost pre = *acc;
    let v = Variant { name, number };
    let ghost gv = v;
    acc.push(v);
    proof {
        crate::model::lemma_deep_view_push(pre, *acc, gv);
    }
    let next2: i32 = if number < 0x7fff_ffffi32 {
        number + 1
    } else {
        number
    };
    let after: usize = if tok_punct(toks, after_expr, ",") {
        after_expr + 1
    } else {
        after_expr
    };
    if after <= pos {
        return Err(Error::UnparsableSource);
    }
    variants_rec(toks, after, next2, acc)
}

/// The tokens of one declared field type from `p` at bracket depth
/// `depth`, up to a top-level comma or closing brace, and the position of
/// that stopper; a stray closing bracket is a fatal error.
pub open spec fn spec_type_scan(ts: Seq<TokenV>, p: int, depth: int, acc: Seq<Seq<char>>) -> Result<
    (Seq<Seq<char>>, int),
    Error,
>
    decreases ts.len() - p,
{
    if p < 0 || p >= ts.len() {
        Ok((acc, ts.len() as int))
    } else if depth == 0 && (sv_punct(ts, p, ","@) || sv_punct(ts, p, "}"@)) {
        Ok((acc, p))
    } else {
        let open = sv_punct(ts, p, "<"@) || sv_punct(ts, p, "("@) || sv_punct(ts, p, "["@);
        let close = sv_punct(ts, p, ">"@) || sv_punct(ts, p, ")"@) || sv_punct(ts, p, "]"@);
        if open {
            let d2 = if depth < usize::MAX as int {
                depth + 1
            } else {
                depth
            };
            spec_type_scan(ts, p + 1, d2, acc.push(ts[p].text))
        } else if close {
            if depth == 0 {
                Err(Error::UnparsableSource)
            } else {
                spec_type_scan(ts, p + 1, depth - 1, acc.push(ts[p].text))
            }
        } else {
            spec_type_scan(ts, p + 1, depth, acc.push(ts[p].text))
        }
    }
}

/// Reads one declared field type into `out`.
fn type_scan_rec(toks: &Vec<Token>, p: usize, depth: usize, out: &mut Vec<String>) -> (r: Result<
    usize,
    Error,
>)
    requires
        p <= toks@.len(),
    ensures
        (match spec_type_scan(toks.deep_view(), p as int, depth as int, old(out).deep_view()) {
            Ok(pr) => r matches Ok(q) && q as int == pr.1 && final(out).deep_view() == pr.0 && p
                <= q <= toks@.len(),
            Err(e) => r == Err::<usize, Error>(e),
        }),
    decreases toks@.len() - p,
{
    let _token_count = toks.len();
    if p >= toks.len() {
        return Ok(toks.len());
    }
    if depth == 0 && (tok_punct(toks, p, ",") || tok_punct(toks, p, "}")) {
        return Ok(p);
    }
    proof {
        assert(toks[p as int].deep_view() == toks.deep_view()[p as int]);
    }
    let open = tok_punct(toks, p, "<") || tok_punct(toks, p, "(") || tok_punct(toks, p, "[");
    let close = tok_punct(toks, p, ">") || tok_punct(toks, p, ")") || tok_punct(toks, p, "]");
    let d2: usize;
    if open {
        d2 = if depth < usize::MAX {
            depth + 1
        } else {
            depth
        };
    } else if close {
        if depth == 0 {
            return Err(Error::UnparsableSource);
        }
        d2 = depth - 1;
    } else {
        d2 = depth;
    }
    let ghost pre = *out;
    let t = toks[p].text.clone();
    let ghost gt = t;
    out.push(t);
    proof {
        crate::model::lemma_deep_view_push(pre, *out, gt);
    }
    type_scan_rec(toks, p + 1, d2, out)
}

/// The field list of a struct-like declaration from `pos` on, and the
/// position past the closing brace.
pub open spec fn spec_fields_loop(ts: Seq<TokenV>, pos: int, acc: Seq<FieldDeclV>) -> Result<
    (Seq<FieldDeclV>, int),
    Error,
>
    decreases ts.len() - pos,
{
    if pos < 0 || pos >= ts.len() {
        Err(Error::UnparsableSource)
    } else if sv_punct(ts, pos, "}"@) {
        Ok((acc, pos + 1))
    } else {
        match spec_attrs_loop(ts, pos, Seq::<AttrV>::empty()) {
            Err(e) => Err(e),
            Ok(ar) => {
                let p = ar.1;
                if sv_punct(ts, p, "}"@) {
                    Ok((acc, p + 1))
                } else {
                    let vis: Result<int, Error> = if sv_word(ts, p, "pub"@) {
                        let q = p + 1;
                        if sv_punct(ts, q, "("@) {
                            spec_skip_group(ts, q)
                        } else {
                            Ok(q)
                        }
                    } else {
                        Ok(p)
                    };
                    match vis {
                        Err(e) => Err(e),
                        Ok(p1) => {
                            if !sv_any_word(ts, p1) {
                                Err(Error::UnparsableSource)
                            } else {
                                let name = ts[p1].text;
                                let p2 = p1 + 1;
                                if !sv_punct(ts, p2, ":"@) {
                                    Err(Error::UnparsableSource)
                                } else {
                                    match spec_type_scan(
                                        ts,
                                        p2 + 1,
                                        0,
                                        Seq::<Seq<char>>::empty(),
                                    ) {
                                        Err(e) => Err(e),
                                        Ok(tr) => {
                                            if tr.0.len() == 0 {
                                                Err(Error::UnparsableSource)
                                            } else {
                                                let acc2 = acc.push(
                                                    FieldDeclV {
                                                        name: name,
                                                        ty: tr.0,
                                                        attrs: ar.0,
                                                    },
                                                );
                                                let after = if sv_punct(ts, tr.1, ","@) {
                                                    tr.1 + 1
                                                } else {
                                                    tr.1
                                                };
                                                if after <= pos {
                                                    Err(Error::UnparsableSource)
                                                } else {
                                                    spec_fields_loop(
                                                        ts,
                                                        spec_step(pos, after, ts.len() as int),
                                                        acc2,
                                                    )
                                                }
                                            }
                                        },
                                    }
                                }
                            }
                        },
                    }
                }
            },
        }
    }
}

/// Parses the field list from `pos` on, appending to `acc`.
fn fields_rec(toks: &Vec<Token>, pos: usize, acc: &mut Vec<FieldDecl>) -> (r: Result<usize, Error>)
    requires
        pos <= toks@.len(),
    ensures
        (match spec_fields_loop(toks.deep_view(), pos as int, old(acc).deep_view()) {
            Ok(pr) => r matches Ok(p) && p as int == pr.1 && final(acc).deep_view() == pr.0 && pos
                < p <= toks@.len(),
            Err(e) => r == Err::<usize, Error>(e),
        }),
    decreases toks@.len() - pos,
{
    let ghost tv = toks.deep_view();
    if pos >= toks.len() {
        return Err(Error::UnparsableSource);
    }
    if tok_punct(toks, pos, "}") {
        return Ok(pos + 1);
    }
    let mut attrs: Vec<Attr> = Vec::new();
    proof {
        assert(attrs.deep_view() =~= Seq::<AttrV>::empty());
    }
    let p = match attrs_rec(toks, pos, &mut attrs) {
        Ok(p) => p,
        Err(e) => {
            return Err(e);
        },
    };
    if tok_punct(toks, p, "}") {
        return Ok(p + 1);
    }
    let p1: usize;
    if tok_word(toks, p, "pub") {
        let q = p + 1;
        if tok_punct(toks, q, "(") {
            match skip_group(toks, q) {
                Ok(np) => {
                    p1 = np;
                },
                Err(e) => {
                    return Err(e);
                },
            }
        } else {
            p1 = q;
        }
    } else {
        p1 = p;
    }
    if !tok_any_word(toks, p1) {
        return Err(Error::UnparsableSource);
    }
    proof {
        assert(toks[p1 as int].deep_view() == tv[p1 as int]);
    }
    let name = toks[p1].text.clone();
    let p2 = p1 + 1;
    if !tok_punct(toks, p2, ":") {
        return Err(Error::UnparsableSource);
    }
    let mut tokens: Vec<String> = Vec::new();
    proof {
        assert(tokens.deep_view() =~= Seq::<Seq<char>>::empty());
    }
    let p3 = match type_scan_rec(toks, p2 + 1, 0, &mut tokens) {
        Ok(q) => q,
        Err(e) => {
            return Err(e);
        },
    };
    if tokens.len() == 0 {
        return Err(Error::UnparsableSource);
    }
    let ghost pre = *acc;
    let f = FieldDecl { name, ty: TypeExpr { tokens }, attrs };
    let ghost gf = f;
    acc.push(f);
    proof {
        crate::model::lemma_deep_view_push(pre, *acc, gf);
    }
    let after: usize = if tok_punct(toks, p3, ",") {
        p3 + 1
    } else {
        p3
    };
    if after <= pos {
        return Err(Error::UnparsableSource);
    }
    fields_rec(toks, after, acc)
}

/// The declarations of one block from `pos` on, appended to `acc`, and the
/// position after the block.  When `expect_close` is set the block ends at
/// a matching `}`, otherwise at the end of input.  Structs and enums are
/// recorded under the namespace stack `prefix`; nested namespace blocks
/// are recursed into with their name pushed; everything else is skipped.
pub open spec fn spec_block_loop(
    ts: Seq<TokenV>,
    pos: int,
    prefix: Seq<Seq<char>>,
    expect_close: bool,
    acc: Seq<DeclV>,
) -> Result<(Seq<DeclV>, int), Error>
    decreases ts.len() - pos, 1int,
{
    if pos < 0 || pos >= ts.len() {
        if expect_close {
            Err(Error::UnparsableSource)
        } else {
            Ok((acc, ts.len() as int))
        }
    } else if sv_punct(ts, pos, "}"@) {
        if expect_close {
            Ok((acc, pos + 1))
        } else {
            Err(Error::UnparsableSource)
        }
    } else {
        match spec_attrs_loop(ts, pos, Seq::<AttrV>::empty()) {
            Err(e) => Err(e),
            Ok(ar) => {
                let pa = ar.1;
                if pa >= ts.len() {
                    if expect_close {
                        Err(Error::UnparsableSource)
                    } else {
                        Ok((acc, ts.len() as int))
                    }
                } else {
                    let vis: Result<int, Error> = if sv_word(ts, pa, "pub"@) {
                        let q = pa + 1;
                        if sv_punct(ts, q, "("@) {
                            spec_skip_group(ts, q)
                        } else {
                            Ok(q)
                        }
                    } else {
                        Ok(pa)
                    };
                    match vis {
                        Err(e) => Err(e),
                        Ok(p1) => {
                            if p1 >= ts.len() {
                                Err(Error::UnparsableSource)
                            } else {
                                spec_block_decl(ts, pos, p1, ar.0, prefix, expect_close, acc)
                            }
                        },
                    }
                }
            },
        }
    }
}

/// One declaration of a block, starting at `p1` with its attributes read.
pub open spec fn spec_block_decl(
    ts: Seq<TokenV>,
    pos: int,
    p1: int,
    attrs: Seq<AttrV>,
    prefix: Seq<Seq<char>>,
    expect_close: bool,
    acc: Seq<DeclV>,
) -> Result<(Seq<DeclV>, int), Error>
    decreases ts.len() - pos, 0int,
{
    if pos < 0 || p1 < pos {
        Err(Error::UnparsableSource)
    } else if sv_word(ts, p1, "struct"@) {
        let p2 = p1 + 1;
        if !sv_any_word(ts, p2) {
            Err(Error::UnparsableSource)
        } else {
            let name = ts[p2].text;
            let p3 = p2 + 1;
            let body: Result<(Seq<FieldDeclV>, int), Error> = if sv_punct(ts, p3, "{"@) {
                spec_fields_loop(ts, p3 + 1, Seq::<FieldDeclV>::empty())
            } else if sv_punct(ts, p3, "("@) {
                match spec_skip_group(ts, p3) {
                    Err(e) => Err(e),
                    Ok(p4) => Ok(
                        (
                            Seq::<FieldDeclV>::empty(),
                            if sv_punct(ts, p4, ";"@) {
                                p4 + 1
                            } else {
                                p4
                            },
                        ),
                    ),
                }
            } else if sv_punct(ts, p3, ";"@) {
                Ok((Seq::<FieldDeclV>::empty(), p3 + 1))
            } else {
                Err(Error::UnparsableSource)
            };
            match body {
                Err(e) => Err(e),
                Ok(br) => {
                    let d = DeclV::Struct(
                        StructDeclV { prefix: prefix, name: name, attrs: attrs, fields: br.0 },
                    );
                    if br.1 <= pos {
                        Err(Error::UnparsableSource)
                    } else {
                        spec_block_loop(
                            ts,
                            spec_step(pos, br.1, ts.len() as int),
                            prefix,
                            expect_close,
                            acc.push(d),
                        )
                    }
                },
            }
        }
    } else if sv_word(ts, p1, "enum"@) {
        let p2 = p1 + 1;
        if !sv_any_word(ts, p2) {
            Err(Error::UnparsableSource)
        } else {
            let name = ts[p2].text;
            let p3 = p2 + 1;
            if !sv_punct(ts, p3, "{"@) {
                Err(Error::UnparsableSource)
            } else {
                match spec_variants_loop(ts, p3 + 1, 0, Seq::<VariantV>::empty()) {
                    Err(e) => Err(e),
                    Ok(vr) => {
                        let d = DeclV::Enum(
                            EnumDeclV {
                                prefix: prefix,
                                name: name,
                                attrs: attrs,
                                variants: vr.0,
                            },
                        );
                        if vr.1 <= pos {
                            Err(Error::UnparsableSource)
                        } else {
                            spec_block_loop(
                                ts,
                                spec_step(pos, vr.1, ts.len() as int),
                                prefix,
                                expect_close,
                                acc.push(d),
                            )
                        }
                    },
                }
            }
        }
    } else if sv_word(ts, p1, "mod"@) {
        let p2 = p1 + 1;
        if !sv_any_word(ts, p2) {
            Err(Error::UnparsableSource)
        } else {
            let name = ts[p2].text;
            let p3 = p2 + 1;
            if sv_punct(ts, p3, ";"@) {
                if p3 + 1 <= pos {
                    Err(Error::UnparsableSource)
                } else {
                    spec_block_loop(
                        ts,
                        spec_step(pos, p3 + 1, ts.len() as int),
                        prefix,
                        expect_close,
                        acc,
                    )
                }
            } else if sv_punct(ts, p3, "{"@) {
                match spec_block_loop(
                    ts,
                    spec_step(pos, p3 + 1, ts.len() as int),
                    prefix.push(name),
                    true,
                    acc,
                ) {
                    Err(e) => Err(e),
                    Ok(mr) => {
                        if mr.1 <= pos {
                            Err(Error::UnparsableSource)
                        } else {
                            spec_block_loop(
                                ts,
                                spec_step(pos, mr.1, ts.len() as int),
                                prefix,
                                expect_close,
                                mr.0,
                            )
                        }
                    },
                }
            } else {
                Err(Error::UnparsableSource)
            }
        }
    } else {
        match spec_skip_item(ts, p1, 0) {
            Err(e) => Err(e),
            Ok(p4) => {
                if p4 <= pos {
                    Err(Error::UnparsableSource)
                } else {
                    spec_block_loop(
                        ts,
                        spec_step(pos, p4, ts.len() as int),
                        prefix,
                        expect_close,
                        acc,
                    )
                }
            },
        }
    }
}

/// Parses the declarations of one block, appending to `out`.
fn block_rec(
    toks: &Vec<Token>,
    pos: usize,
    prefix: &Vec<String>,
    expect_close: bool,
    out: &mut Vec<Decl>,
) -> (r: Result<usize, Error>)
    requires
        pos <= toks@.len(),
    ensures
        (match spec_block_loop(
            toks.deep_view(),
            pos as int,
            prefix.deep_view(),
            expect_close,
            old(out).deep_view(),
        ) {
            Ok(pr) => r matches Ok(p) && p as int == pr.1 && final(out).deep_view() == pr.0 && pos
                <= p <= toks@.len(),
            Err(e) => r == Err::<usize, Error>(e),
        }),
    decreases toks@.len() - pos, 1int,
{
    let _token_count = toks.len();
    let ghost tv = toks.deep_view();
    if pos >= toks.len() {
        if expect_close {
            return Err(Error::UnparsableSource);
        }
        return Ok(toks.len());
    }
    if tok_punct(toks, pos, "}") {
        if expect_close {
            return Ok(pos + 1);
        }
        return Err(Error::UnparsableSource);
    }
    let mut attrs: Vec<Attr> = Vec::new();
    proof {
        assert(attrs.deep_view() =~= Seq::<AttrV>::empty());
    }
    let pa = match attrs_rec(toks, pos, &mut attrs) {
        Ok(p) => p,
        Err(e) => {
            return Err(e);
        },
    };
    if pa >= toks.len() {
        if expect_close {
            return Err(Error::UnparsableSource);
        }
        return Ok(toks.len());
    }
    let p1: usize;
    if tok_word(toks, pa, "pub") {
        let q = pa + 1;
        if tok_punct(toks, q, "(") {
            match skip_group(toks, q) {
                Ok(np) => {
                    p1 = np;
                },
                Err(e) => {
                    return Err(e);
                },
            }
        } else {
            p1 = q;
        }
    } else {
        p1 = pa;
    }
    if p1 >= toks.len() {
        return Err(Error::UnparsableSource);
    }
    block_decl_rec(toks, pos, p1, attrs, prefix, expect_close, out)
}

/// Parses one declaration of a block, starting at `p1` with its
/// attributes read.
fn block_decl_rec(
    toks: &Vec<Token>,
    pos: usize,
    p1: usize,
    attrs: Vec<Attr>,
    prefix: &Vec<String>,
    expect_close: bool,
    out: &mut Vec<Decl>,
) -> (r: Result<usize, Error>)
    requires
        pos <= p1 < toks@.len(),
    ensures
        (match spec_block_decl(
            toks.deep_view(),
            pos as int,
            p1 as int,
            attrs.deep_view(),
            prefix.deep_view(),
            expect_close,
            old(out).deep_view(),
        ) {
            Ok(pr) => r matches Ok(p) && p as int == pr.1 && final(out).deep_view() == pr.0 && pos
                <= p <= toks@.len(),
            Err(e) => r == Err::<usize, Error>(e),
        }),
    decreases toks@.len() - pos, 0int,
{
    let _token_count = toks.len();
    let ghost tv = toks.deep_view();
    if tok_word(toks, p1, "struct") {
        let p2 = p1 + 1;
        if !tok_any_word(toks, p2) {
            return Err(Error::UnparsableSource);
        }
        proof {
            assert(toks[p2 as int].deep_view() == tv[p2 as int]);
        }
        let name = toks[p2].text.clone();
        let p3 = p2 + 1;
        let mut fields: Vec<FieldDecl> = Vec::new();
        proof {
            assert(fields.deep_view() =~= Seq::<FieldDeclV>::empty());
        }
        let after_body: usize;
        if tok_punct(toks, p3, "{") {
            match fields_rec(toks, p3 + 1, &mut fields) {
                Ok(p4) => {
                    after_body = p4;
                },
                Err(e) => {
                    return Err(e);
                },
            }
        } else if tok_punct(toks, p3, "(") {
            match skip_group(toks, p3) {
                Ok(p4) => {
                    after_body = if tok_punct(toks, p4, ";") {
                        p4 + 1
                    } else {
                        p4
                    };
                },
                Err(e) => {
                    return Err(e);
                },
            }
        } else if tok_punct(toks, p3, ";") {
            after_body = p3 + 1;
        } else {
            return Err(Error::UnparsableSource);
        }
        let ghost pre = *out;
        let d = Decl::Struct(StructDecl { prefix: crate::model::clone_strings(prefix), name, attrs, fields });
        let ghost gd = d;
        out.push(d);
        proof {
            crate::model::lemma_deep_view_push(pre, *out, gd);
            assert(gd.deep_view() matches DeclV::Struct(sd) && sd.prefix == prefix.deep_view());
        }
        if after_body <= pos {
            return Err(Error::UnparsableSource);
        }
        block_rec(toks, after_body, prefix, expect_close, out)
    } else if tok_word(toks, p1, "enum") {
        let p2 = p1 + 1;
        if !tok_any_word(toks, p2) {
            return Err(Error::UnparsableSource);
        }
        proof {
            assert(toks[p2 as int].deep_view() == tv[p2 as int]);
        }
        let name = toks[p2].text.clone();
        let p3 = p2 + 1;
        if !tok_punct(toks, p3, "{") {
            return Err(Error::UnparsableSource);
        }
        let mut variants: Vec<Variant> = Vec::new();
        proof {
            assert(variants.deep_view() =~= Seq::<VariantV>::empty());
        }
        let p4 = match variants_rec(toks, p3 + 1, 0, &mut variants) {
            Ok(p) => p,
            Err(e) => {
                return Err(e);
            },
        };
        let ghost pre = *out;
        let d = Decl::Enum(EnumDecl { prefix: crate::model::clone_strings(prefix), name, attrs, variants });
        let ghost gd = d;
        out.push(d);
        proof {
            crate::model::lemma_deep_view_push(pre, *out, gd);
        }
        if p4 <= pos {
            return Err(Error::UnparsableSource);
        }
        block_rec(toks, p4, prefix, expect_close, out)
    } else if tok_word(toks, p1, "mod") {
        let p2 = p1 + 1;
        if !tok_any_word(toks, p2) {
            return Err(Error::UnparsableSource);
        }
        proof {
            assert(toks[p2 as int].deep_view() == tv[p2 as int]);
        }
        let name = toks[p2].text.clone();
        let p3 = p2 + 1;
        if tok_punct(toks, p3, ";") {
            block_rec(toks, p3 + 1, prefix, expect_close, out)
        } else if tok_punct(toks, p3, "{") {
            let mut nested_prefix = crate::model::clone_strings(prefix);
            let ghost pre_prefix = nested_prefix;
            let ghost gname = name;
            nested_prefix.push(name);
            proof {
                crate::model::lemma_deep_view_push(pre_prefix, nested_prefix, gname);
            }
            let p4 = match block_rec(toks, p3 + 1, &nested_prefix, true, out) {
                Ok(p) => p,
                Err(e) => {
                    return Err(e);
                },
            };
            if p4 <= pos {
                return Err(Error::UnparsableSource);
            }
            block_rec(toks, p4, prefix, expect_close, out)
        } else {
            Err(Error::UnparsableSource)
        }
    } else {
        let p4 = match skip_item_rec(toks, p1, 0) {
            Ok(p) => p,
            Err(e) => {
                return Err(e);
            },
        };
        if p4 <= pos {
            return Err(Error::UnparsableSource);
        }
        block_rec(toks, p4, prefix, expect_close, out)
    }
}

/// The structural model of one generated file as a function of its text:
/// its tokens, then the declarations of the top-level block.
pub open spec fn spec_parse(text: Seq<char>) -> Result<Seq<DeclV>, Error> {
    match spec_tokenize(text) {
        Err(e) => Err(e),
        Ok(ts) => match spec_block_loop(ts, 0, Seq::<Seq<char>>::empty(), false, Seq::<
            DeclV,
        >::empty()) {
            Err(e) => Err(e),
            Ok(pr) => Ok(pr.0),
        },
    }
}

/// The ghost form of a parse result.
pub open spec fn parse_result_view(r: Result<SourceUnit, Error>) -> Result<Seq<DeclV>, Error> {
    match r {
        Ok(u) => Ok(u@),
        Err(e) => Err(e),
    }
}

/// Parses one generated file into its structural model.
pub fn parse_source(text: &str) -> (r: Result<SourceUnit, Error>)
    ensures
        parse_result_view(r) == spec_parse(text@),
{
    let cs = crate::strutil::to_chars(text);
    let toks = match tokenize(&cs) {
        Ok(ts) => ts,
        Err(e) => {
            return Err(e);
        },
    };
    let prefix: Vec<String> = Vec::new();
    let mut decls: Vec<Decl> = Vec::new();
    proof {
        assert(prefix.deep_view() =~= Seq::<Seq<char>>::empty());
        assert(decls.deep_view() =~= Seq::<DeclV>::empty());
    }
    match block_rec(&toks, 0, &prefix, false, &mut decls) {
        Ok(_) => Ok(SourceUnit { decls }),
        Err(e) => Err(e),
    }
}

} // verus!
