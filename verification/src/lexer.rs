//! Tokenization of generated source text.
//!
//! The loader works on these tokens.  Comments and whitespace are dropped;
//! `::` is kept as a single token so that path types keep their shape.
//! [`spec_tokenize`] fixes the token list as a function of the text, and
//! [`tokenize`] is proved to compute it.

use vstd::prelude::*;

use crate::error::Error;
use crate::strutil::chars_to_string;

verus! {

/// The class of one token.
#[derive(Clone, Copy, PartialEq, Eq, Structural, Debug)]
pub enum TokKind {
    /// An identifier or keyword, including escaped `r#...` identifiers.
    Word,
    /// A numeric literal.
    Num,
    /// A punctuation token; `::` is one token.
    Punct,
    /// A string literal; the text holds the characters between the quotes.
    StrLit,
}

/// One token of the input.
pub struct Token {
    pub kind: TokKind,
    pub text: String,
}

/// Ghost form of [`Token`].
pub struct TokenV {
    pub kind: TokKind,
    pub text: Seq<char>,
}

impl DeepView for Token {
    type V = TokenV;

    open spec fn deep_view(&self) -> TokenV {
        TokenV { kind: self.kind, text: self.text@ }
    }
}

/// A character that can start an identifier.
pub open spec fn spec_ident_start(c: char) -> bool {
    ('a' <= c <= 'z') || ('A' <= c <= 'Z') || c == '_'
}

/// A character that can continue an identifier or number.
pub open spec fn spec_ident_char(c: char) -> bool {
    ('a' <= c <= 'z') || ('A' <= c <= 'Z') || ('0' <= c <= '9') || c == '_'
}

/// A whitespace character.
pub open spec fn spec_space(c: char) -> bool {
    c == ' ' || c == '\t' || c == '\r' || c == '\n'
}

/// Whether a character can start an identifier.
pub fn is_ident_start(c: char) -> (r: bool)
    ensures
        r == spec_ident_start(c),
{
    ('a' <= c && c <= 'z') || ('A' <= c && c <= 'Z') || c == '_'
}

/// Whether a character can continue an identifier or number.
pub fn is_ident_char(c: char) -> (r: bool)
    ensures
        r == spec_ident_char(c),
{
    ('a' <= c && c <= 'z') || ('A' <= c && c <= 'Z') || ('0' <= c && c <= '9') || c == '_'
}

/// Whether a character is a decimal digit.
pub fn is_digit(c: char) -> (r: bool)
    ensures
        r == ('0' <= c <= '9'),
{
    '0' <= c && c <= '9'
}

/// A scan target clamped into `(i, len]`, so that recursion over a text
/// always advances and never leaves it.
pub open spec fn spec_step(i: int, target: int, len: int) -> int {
    if target <= i {
        i + 1
    } else if target > len {
        len
    } else {
        target
    }
}

/// The index just past a line comment's text: the first newline at or
/// after `i`, or the end.
pub open spec fn spec_line_end(s: Seq<char>, i: int) -> int
    decreases s.len() - i,
{
    if i < 0 || i >= s.len() {
        s.len() as int
    } else if s[i] == '\n' {
        i
    } else {
        spec_line_end(s, i + 1)
    }
}

/// Finds the first newline at or after `i`, or the end.
fn line_end(cs: &Vec<char>, i: usize) -> (r: usize)
    requires
        i <= cs@.len(),
    ensures
        r as int == spec_line_end(cs@, i as int),
        i <= r <= cs@.len(),
    decreases cs@.len() - i,
{
    if i >= cs.len() {
        cs.len()
    } else if cs[i] == '\n' {
        i
    } else {
        line_end(cs, i + 1)
    }
}

/// The index just past the closing `*/` of a block comment, searching from
/// `i`; nothing when the comment is unterminated.
pub open spec fn spec_block_end(s: Seq<char>, i: int) -> Option<int>
    decreases s.len() - i,
{
    if i < 0 || i >= s.len() {
        None
    } else if s[i] == '*' && i + 1 < s.len() && s[i + 1] == '/' {
        Some(i + 2)
    } else {
        spec_block_end(s, i + 1)
    }
}

/// Finds the index just past the closing `*/`, searching from `i`.
fn block_end(cs: &Vec<char>, i: usize) -> (r: Option<usize>)
    requires
        i <= cs@.len(),
    ensures
        (match r {
            Some(p) => spec_block_end(cs@, i as int) == Some(p as int) && i < p <= cs@.len(),
            None => spec_block_end(cs@, i as int) is None,
        }),
    decreases cs@.len() - i,
{
    if i >= cs.len() {
        None
    } else if cs[i] == '*' && i + 1 < cs.len() && cs[i + 1] == '/' {
        Some(i + 2)
    } else {
        block_end(cs, i + 1)
    }
}

/// The first index at or after `i` whose character no longer continues an
/// identifier.
pub open spec fn spec_ident_end(s: Seq<char>, i: int) -> int
    decreases s.len() - i,
{
    if i < 0 || i >= s.len() {
        s.len() as int
    } else if spec_ident_char(s[i]) {
        spec_ident_end(s, i + 1)
    } else {
        i
    }
}

/// Finds the first index at or after `i` that no longer continues an
/// identifier.
fn ident_end(cs: &Vec<char>, i: usize) -> (r: usize)
    requires
        i <= cs@.len(),
    ensures
        r as int == spec_ident_end(cs@, i as int),
        i <= r <= cs@.len(),
    decreases cs@.len() - i,
{
    if i >= cs.len() {
        cs.len()
    } else if is_ident_char(cs[i]) {
        ident_end(cs, i + 1)
    } else {
        i
    }
}

/// The index of the closing quote of a string literal whose body starts at
/// `i`, skipping escape pairs; nothing when the literal is unterminated.
pub open spec fn spec_str_end(s: Seq<char>, i: int) -> Option<int>
    decreases s.len() - i,
{
    if i < 0 || i >= s.len() {
        None
    } else if s[i] == '\\' {
        if i + 1 < s.len() {
            spec_str_end(s, i + 2)
        } else {
            None
        }
    } else if s[i] == '"' {
        Some(i)
    } else {
        spec_str_end(s, i + 1)
    }
}

/// Finds the closing quote of a string literal whose body starts at `i`.
fn str_end(cs: &Vec<char>, i: usize) -> (r: Option<usize>)
    requires
        i <= cs@.len(),
    ensures
        (match r {
            Some(p) => spec_str_end(cs@, i as int) == Some(p as int) && i <= p < cs@.len(),
            None => spec_str_end(cs@, i as int) is None,
        }),
    decreases cs@.len() - i,
{
    if i >= cs.len() {
        None
    } else if cs[i] == '\\' {
        if i + 1 < cs.len() {
            str_end(cs, i + 2)
        } else {
            None
        }
    } else if cs[i] == '"' {
        Some(i)
    } else {
        str_end(cs, i + 1)
    }
}

/// The token list of the text from `i` on: whitespace and comments are
/// dropped, identifier and digit runs form one token each, `::` is one
/// token, a string literal keeps the characters between its quotes, any
/// other character stands alone.  An unterminated block comment or string
/// literal makes the text unparsable.
pub open spec fn spec_tokenize_from(s: Seq<char>, i: int) -> Result<Seq<TokenV>, Error>
    decreases s.len() - i,
{
    if i < 0 || i >= s.len() {
        Ok(Seq::<TokenV>::empty())
    } else {
        let c = s[i];
        if spec_space(c) {
            spec_tokenize_from(s, i + 1)
        } else if c == '/' && i + 1 < s.len() && s[i + 1] == '/' {
            spec_tokenize_from(s, spec_step(i, spec_line_end(s, i + 2), s.len() as int))
        } else if c == '/' && i + 1 < s.len() && s[i + 1] == '*' {
            match spec_block_end(s, i + 2) {
                None => Err(Error::UnparsableSource),
                Some(j) => spec_tokenize_from(s, spec_step(i, j, s.len() as int)),
            }
        } else if c == 'r' && i + 1 < s.len() && s[i + 1] == '#' && i + 2 < s.len()
            && spec_ident_start(s[i + 2]) {
            let e = spec_step(i, spec_ident_end(s, i + 2), s.len() as int);
            match spec_tokenize_from(s, e) {
                Err(er) => Err(er),
                Ok(ts) => Ok(
                    seq![TokenV { kind: TokKind::Word, text: s.subrange(i, e) }] + ts,
                ),
            }
        } else if spec_ident_start(c) {
            let e = spec_step(i, spec_ident_end(s, i + 1), s.len() as int);
            match spec_tokenize_from(s, e) {
                Err(er) => Err(er),
                Ok(ts) => Ok(
                    seq![TokenV { kind: TokKind::Word, text: s.subrange(i, e) }] + ts,
                ),
            }
        } else if '0' <= c <= '9' {
            let e = spec_step(i, spec_ident_end(s, i + 1), s.len() as int);
            match spec_tokenize_from(s, e) {
                Err(er) => Err(er),
                Ok(ts) => Ok(
                    seq![TokenV { kind: TokKind::Num, text: s.subrange(i, e) }] + ts,
                ),
            }
        } else if c == '"' {
            match spec_str_end(s, i + 1) {
                None => Err(Error::UnparsableSource),
                Some(q) => {
                    let e = spec_step(i, q + 1, s.len() as int);
                    match spec_tokenize_from(s, e) {
                        Err(er) => Err(er),
                        Ok(ts) => Ok(
                            seq![TokenV { kind: TokKind::StrLit, text: s.subrange(i + 1, q) }]
                                + ts,
                        ),
                    }
                },
            }
        } else if c == ':' && i + 1 < s.len() && s[i + 1] == ':' {
            match spec_tokenize_from(s, i + 2) {
                Err(er) => Err(er),
                Ok(ts) => Ok(seq![TokenV { kind: TokKind::Punct, text: "::"@ }] + ts),
            }
        } else {
            match spec_tokenize_from(s, i + 1) {
                Err(er) => Err(er),
                Ok(ts) => Ok(seq![TokenV { kind: TokKind::Punct, text: seq![c] }] + ts),
            }
        }
    }
}

/// The token list of a whole text.
pub open spec fn spec_tokenize(s: Seq<char>) -> Result<Seq<TokenV>, Error> {
    spec_tokenize_from(s, 0)
}

/// The ghost form of a tokenization result.
pub open spec fn tokens_result_view(r: Result<Vec<Token>, Error>) -> Result<Seq<TokenV>, Error> {
    match r {
        Ok(v) => Ok(v.deep_view()),
        Err(e) => Err(e),
    }
}

/// Tokenizes from `i` on, appending to `out`.
fn tokenize_rec(cs: &Vec<char>, i: usize, out: &mut Vec<Token>) -> (r: Result<(), Error>)
    requires
        i <= cs@.len(),
    ensures
        (match spec_tokenize_from(cs@, i as int) {
            Ok(ts) => r is Ok && final(out).deep_view() == old(out).deep_view() + ts,
            Err(e) => r == Err::<(), Error>(e),
        }),
    decreases cs@.len() - i,
{
    if i >= cs.len() {
        proof {
            assert(out.deep_view() + Seq::<TokenV>::empty() =~= out.deep_view());
        }
        return Ok(());
    }
    let c = cs[i];
    if c == ' ' || c == '\t' || c == '\r' || c == '\n' {
        tokenize_rec(cs, i + 1, out)
    } else if c == '/' && i + 1 < cs.len() && cs[i + 1] == '/' {
        let e = line_end(cs, i + 2);
        tokenize_rec(cs, e, out)
    } else if c == '/' && i + 1 < cs.len() && cs[i + 1] == '*' {
        match block_end(cs, i + 2) {
            None => Err(Error::UnparsableSource),
            Some(j) => tokenize_rec(cs, j, out),
        }
    } else if c == 'r' && i + 1 < cs.len() && cs[i + 1] == '#' && i + 2 < cs.len() && is_ident_start(
        cs[i + 2],
    ) {
        let e = ident_end(cs, i + 2);
        let ghost pre = *out;
        let t = Token { kind: TokKind::Word, text: chars_to_string(cs, i, e) };
        let ghost gt2 = t;
        out.push(t);
        proof {
            crate::model::lemma_deep_view_push(pre, *out, gt2);
        }
        let r = tokenize_rec(cs, e, out);
        proof {
            match spec_tokenize_from(cs@, i as int) {
                Ok(ts) => {
                    let e2 = spec_step(i as int, spec_ident_end(cs@, i as int + 2), cs@.len() as int);
                    match spec_tokenize_from(cs@, e2) {
                        Ok(rest) => {
                            assert(pre.deep_view() + (seq![
                                TokenV {
                                    kind: TokKind::Word,
                                    text: cs@.subrange(i as int, e2),
                                },
                            ] + rest) =~= (pre.deep_view().push(gt2.deep_view())) + rest);
                        },
                        Err(_) => {},
                    }
                },
                Err(_) => {},
            }
        }
        r
    } else if is_ident_start(c) || is_digit(c) {
        let e = ident_end(cs, i + 1);
        let kind = if is_digit(c) {
            TokKind::Num
        } else {
            TokKind::Word
        };
        let ghost pre = *out;
        let t = Token { kind, text: chars_to_string(cs, i, e) };
        let ghost gt2 = t;
        out.push(t);
        proof {
            crate::model::lemma_deep_view_push(pre, *out, gt2);
        }
        let r = tokenize_rec(cs, e, out);
        proof {
            let e2 = spec_step(i as int, spec_ident_end(cs@, i as int + 1), cs@.len() as int);
            match spec_tokenize_from(cs@, e2) {
                Ok(rest) => {
                    assert(pre.deep_view() + (seq![gt2.deep_view()] + rest) =~= (
                    pre.deep_view().push(gt2.deep_view())) + rest);
                },
                Err(_) => {},
            }
        }
        r
    } else if c == '"' {
        match str_end(cs, i + 1) {
            None => Err(Error::UnparsableSource),
            Some(q) => {
                let ghost pre = *out;
                let t = Token { kind: TokKind::StrLit, text: chars_to_string(cs, i + 1, q) };
                let ghost gt2 = t;
                out.push(t);
                proof {
                    crate::model::lemma_deep_view_push(pre, *out, gt2);
                }
                let r = tokenize_rec(cs, q + 1, out);
                proof {
                    match spec_tokenize_from(cs@, (q + 1) as int) {
                        Ok(rest) => {
                            assert(pre.deep_view() + (seq![gt2.deep_view()] + rest) =~= (
                            pre.deep_view().push(gt2.deep_view())) + rest);
                        },
                        Err(_) => {},
                    }
                }
                r
            },
        }
    } else if c == ':' && i + 1 < cs.len() && cs[i + 1] == ':' {
        let ghost pre = *out;
        let mut text = String::new();
        text.append("::");
        let t = Token { kind: TokKind::Punct, text };
        let ghost gt2 = t;
        out.push(t);
        proof {
            crate::model::lemma_deep_view_push(pre, *out, gt2);
            assert(gt2.deep_view().text =~= "::"@);
        }
        let r = tokenize_rec(cs, i + 2, out);
        proof {
            match spec_tokenize_from(cs@, i as int + 2) {
                Ok(rest) => {
                    assert(pre.deep_view() + (seq![TokenV { kind: TokKind::Punct, text: "::"@ }]
                        + rest) =~= (pre.deep_view().push(gt2.deep_view())) + rest);
                },
                Err(_) => {},
            }
        }
        r
    } else {
        let ghost pre = *out;
        let t = Token { kind: TokKind::Punct, text: chars_to_string(cs, i, i + 1) };
        let ghost gt2 = t;
        out.push(t);
        proof {
            crate::model::lemma_deep_view_push(pre, *out, gt2);
            assert(gt2.deep_view().text =~= seq![c]);
        }
        let r = tokenize_rec(cs, i + 1, out);
        proof {
            match spec_tokenize_from(cs@, i as int + 1) {
                Ok(rest) => {
                    assert(pre.deep_view() + (seq![TokenV { kind: TokKind::Punct, text: seq![c] }]
                        + rest) =~= (pre.deep_view().push(gt2.deep_view())) + rest);
                },
                Err(_) => {},
            }
        }
        r
    }
}

/// Splits the input into tokens; an unterminated string literal or block
/// comment makes the file unparsable.
pub fn tokenize(cs: &Vec<char>) -> (r: Result<Vec<Token>, Error>)
    ensures
        tokens_result_view(r) == spec_tokenize(cs@),
{
    let mut out: Vec<Token> = Vec::new();
    match tokenize_rec(cs, 0, &mut out) {
        Ok(()) => {
            proof {
                match spec_tokenize(cs@) {
                    Ok(ts) => {
                        assert(out.deep_view() =~= ts);
                    },
                    Err(_) => {},
                }
            }
            Ok(out)
        },
        Err(e) => Err(e),
    }
}

} // verus!
