//! The field classifier.
//!
//! Maps a field's annotation set to exactly one semantic [`FieldKind`].
//! Annotation words are drawn from a fixed vocabulary; when several words
//! match, the first under a fixed total precedence order decides, and an
//! `optional` word wraps the decision.  A field whose annotations match
//! nothing is a fatal error, never a silent default.

use vstd::prelude::*;

use crate::error::Error;
use crate::model::{render_prefix, spec_render_prefix, Attr, AttrV, Meta, MetaV};
use crate::strutil::string_eq_str;

verus! {

/// The semantic kind of one field.
#[derive(Debug, PartialEq)]
pub enum FieldKind {
    /// A field stored behind a presence marker.
    Optional(Box<FieldKind>),
    /// A repeated field; carries the namespace stack of the declaration
    /// site, against which `super` markers of the element type are
    /// cancelled.
    Repeated { prefix: Vec<String> },
    /// A nested message field.
    Message,
    /// Any integer scalar.
    Int,
    /// Any floating-point scalar.
    Float,
    /// A boolean scalar.
    Bool,
    /// A byte-buffer field.
    Bytes,
    /// A string field.
    Str,
    /// One alternative group; excluded from synthesis.
    OneOf(String),
    /// An enumeration field, stored as its integer encoding; carries the
    /// prefixed name of the enumeration type.
    Enumeration(String),
    /// A key-value map field.
    Mapping,
}

/// Ghost form of [`FieldKind`].
pub enum FieldKindV {
    Optional(Box<FieldKindV>),
    Repeated { prefix: Seq<Seq<char>> },
    Message,
    Int,
    Float,
    Bool,
    Bytes,
    Str,
    OneOf(Seq<char>),
    Enumeration(Seq<char>),
    Mapping,
}

/// The ghost form of an exec field kind.
pub open spec fn kind_view(k: FieldKind) -> FieldKindV
    decreases k,
{
    match k {
        FieldKind::Optional(inner) => FieldKindV::Optional(Box::new(kind_view(*inner))),
        FieldKind::Repeated { prefix } => FieldKindV::Repeated { prefix: prefix.deep_view() },
        FieldKind::Message => FieldKindV::Message,
        FieldKind::Int => FieldKindV::Int,
        FieldKind::Float => FieldKindV::Float,
        FieldKind::Bool => FieldKindV::Bool,
        FieldKind::Bytes => FieldKindV::Bytes,
        FieldKind::Str => FieldKindV::Str,
        FieldKind::OneOf(s) => FieldKindV::OneOf(s@),
        FieldKind::Enumeration(s) => FieldKindV::Enumeration(s@),
        FieldKind::Mapping => FieldKindV::Mapping,
    }
}

/// The ghost form of a classification result.
pub open spec fn classify_result_view(r: Result<FieldKind, Error>) -> Result<FieldKindV, Error> {
    match r {
        Ok(k) => Ok(kind_view(k)),
        Err(e) => Err(e),
    }
}

/// The fixed total precedence order: the kind with the smallest rank wins.
pub open spec fn spec_precedence(k: FieldKindV) -> int {
    match k {
        FieldKindV::Optional(_) => 0,
        FieldKindV::Repeated { .. } => 1,
        FieldKindV::Message => 2,
        FieldKindV::Int => 3,
        FieldKindV::Float => 4,
        FieldKindV::Bool => 5,
        FieldKindV::Bytes => 6,
        FieldKindV::Str => 7,
        FieldKindV::OneOf(_) => 8,
        FieldKindV::Enumeration(_) => 9,
        FieldKindV::Mapping => 10,
    }
}

/// The kind named by one annotation entry, if any.  The `optional` word is
/// not a kind of its own; it is handled by the wrapping step.
pub open spec fn spec_meta_kind(m: MetaV, prefix: Seq<Seq<char>>) -> Option<FieldKindV> {
    match m {
        MetaV::Word(w) => {
            if w == "message"@ {
                Some(FieldKindV::Message)
            } else if w == "repeated"@ {
                Some(FieldKindV::Repeated { prefix })
            } else if w == "bytes"@ {
                Some(FieldKindV::Bytes)
            } else if w == "string"@ {
                Some(FieldKindV::Str)
            } else if w == "bool"@ {
                Some(FieldKindV::Bool)
            } else if w == "float"@ || w == "double"@ {
                Some(FieldKindV::Float)
            } else if w == "int32"@ || w == "int64"@ || w == "uint32"@ || w == "uint64"@ {
                Some(FieldKindV::Int)
            } else {
                None
            }
        },
        MetaV::NameValue(nm, v) => {
            if nm == "enumeration"@ {
                Some(FieldKindV::Enumeration(spec_render_prefix(prefix) + v))
            } else if nm == "oneof"@ {
                Some(FieldKindV::OneOf(spec_render_prefix(prefix) + v))
            } else if nm == "map"@ {
                Some(FieldKindV::Mapping)
            } else {
                None
            }
        },
    }
}

/// Folds the later candidate into the earlier one: the strictly smaller
/// rank replaces it, so among equal ranks the earliest entry wins.
pub open spec fn spec_combine(acc: Option<FieldKindV>, new: Option<FieldKindV>) -> Option<
    FieldKindV,
> {
    match new {
        None => acc,
        Some(k) => match acc {
            None => Some(k),
            Some(a) => if spec_precedence(k) < spec_precedence(a) {
                Some(k)
            } else {
                Some(a)
            },
        },
    }
}

/// The winning non-`optional` kind of the entries from index `i` on, folded
/// left to right into `acc`.
pub open spec fn spec_best_from(
    metas: Seq<MetaV>,
    prefix: Seq<Seq<char>>,
    i: int,
    acc: Option<FieldKindV>,
) -> Option<FieldKindV>
    decreases metas.len() - i,
{
    if i < 0 || i >= metas.len() {
        acc
    } else {
        spec_best_from(metas, prefix, i + 1, spec_combine(acc, spec_meta_kind(metas[i], prefix)))
    }
}

/// The winning non-`optional` kind of an annotation's entries.
pub open spec fn spec_best_kind(metas: Seq<MetaV>, prefix: Seq<Seq<char>>) -> Option<FieldKindV> {
    spec_best_from(metas, prefix, 0, None)
}

/// Whether the entries from index `i` on contain the word `optional`.
pub open spec fn spec_has_optional_from(metas: Seq<MetaV>, i: int) -> bool
    decreases metas.len() - i,
{
    if i < 0 || i >= metas.len() {
        false
    } else {
        metas[i] == MetaV::Word("optional"@) || spec_has_optional_from(metas, i + 1)
    }
}

/// Whether an annotation's entries contain the word `optional`.
pub open spec fn spec_has_optional(metas: Seq<MetaV>) -> bool {
    spec_has_optional_from(metas, 0)
}

/// The kinds that may stand inside an `optional` wrapper.  Any other
/// combination is unrecognized and therefore a fatal error.
pub open spec fn spec_optional_inner_ok(k: FieldKindV) -> bool {
    match k {
        FieldKindV::Message => true,
        FieldKindV::Bytes => true,
        FieldKindV::Str => true,
        FieldKindV::Int => true,
        FieldKindV::Float => true,
        FieldKindV::Bool => true,
        FieldKindV::Enumeration(_) => true,
        _ => false,
    }
}

/// A well-formed kind: an `optional` wrapper only ever holds a kind the
/// classifier accepts inside it.
pub open spec fn spec_kind_wf(k: FieldKindV) -> bool {
    match k {
        FieldKindV::Optional(inner) => spec_optional_inner_ok(*inner),
        _ => true,
    }
}

/// Whether one attribute decides the classification: it is a `prost`
/// annotation and at least one of its entries names a kind.
pub open spec fn spec_attr_decides(a: AttrV, prefix: Seq<Seq<char>>) -> bool {
    a.path == "prost"@ && spec_best_kind(a.metas, prefix) is Some
}

/// The classification of the first deciding attribute: its winning kind,
/// wrapped when `optional` is present.  No deciding attribute is a fatal
/// `UnknownFieldKind` error, as is an `optional` around a kind that cannot
/// carry it.
pub open spec fn spec_classify(attrs: Seq<AttrV>, prefix: Seq<Seq<char>>) -> Result<
    FieldKindV,
    Error,
>
    decreases attrs.len(),
{
    if attrs.len() == 0 {
        Err(Error::UnknownFieldKind)
    } else if spec_attr_decides(attrs[0], prefix) {
        let base = spec_best_kind(attrs[0].metas, prefix)->Some_0;
        if spec_has_optional(attrs[0].metas) {
            if spec_optional_inner_ok(base) {
                Ok(FieldKindV::Optional(Box::new(base)))
            } else {
                Err(Error::UnknownFieldKind)
            }
        } else {
            Ok(base)
        }
    } else {
        spec_classify(attrs.drop_first(), prefix)
    }
}

/// The winning kind is never itself an `optional` wrapper.
proof fn lemma_best_not_optional(metas: Seq<MetaV>, prefix: Seq<Seq<char>>, i: int, acc: Option<
    FieldKindV,
>)
    requires
        acc matches Some(a) ==> !(a is Optional),
    ensures
        spec_best_from(metas, prefix, i, acc) matches Some(k) ==> !(k is Optional),
    decreases metas.len() - i,
{
    if i < 0 || i >= metas.len() {
    } else {
        let next = spec_combine(acc, spec_meta_kind(metas[i], prefix));
        lemma_best_not_optional(metas, prefix, i + 1, next);
    }
}

/// A classification that succeeds yields a well-formed kind.
pub proof fn lemma_classify_wf(attrs: Seq<AttrV>, prefix: Seq<Seq<char>>)
    ensures
        spec_classify(attrs, prefix) matches Ok(k) ==> spec_kind_wf(k),
    decreases attrs.len(),
{
    if attrs.len() == 0 {
    } else if spec_attr_decides(attrs[0], prefix) {
        lemma_best_not_optional(attrs[0].metas, prefix, 0, None);
    } else {
        lemma_classify_wf(attrs.drop_first(), prefix);
    }
}

/// Classification is a function of the annotations and the namespace alone:
/// the same field declaration classifies the same way every time.
pub proof fn lemma_classification_deterministic(
    attrs1: Seq<AttrV>,
    attrs2: Seq<AttrV>,
    prefix1: Seq<Seq<char>>,
    prefix2: Seq<Seq<char>>,
)
    requires
        attrs1 == attrs2,
        prefix1 == prefix2,
    ensures
        spec_classify(attrs1, prefix1) == spec_classify(attrs2, prefix2),
{
}

/// The precedence rank of a kind.
fn precedence(k: &FieldKind) -> (r: u32)
    ensures
        r as int == spec_precedence(kind_view(*k)),
{
    match k {
        FieldKind::Optional(_) => 0,
        FieldKind::Repeated { .. } => 1,
        FieldKind::Message => 2,
        FieldKind::Int => 3,
        FieldKind::Float => 4,
        FieldKind::Bool => 5,
        FieldKind::Bytes => 6,
        FieldKind::Str => 7,
        FieldKind::OneOf(_) => 8,
        FieldKind::Enumeration(_) => 9,
        FieldKind::Mapping => 10,
    }
}

/// The ghost form of an optional exec kind.
pub open spec fn opt_kind_view(o: Option<FieldKind>) -> Option<FieldKindV> {
    match o {
        Some(k) => Some(kind_view(k)),
        None => None,
    }
}

/// The kind named by one annotation entry, if any.
fn meta_kind(m: &Meta, prefix: &Vec<String>) -> (r: Option<FieldKind>)
    ensures
        opt_kind_view(r) == spec_meta_kind(m.deep_view(), prefix.deep_view()),
{
    match m {
        Meta::Word(w) => {
            if string_eq_str(w, "message") {
                Some(FieldKind::Message)
            } else if string_eq_str(w, "repeated") {
                Some(FieldKind::Repeated { prefix: prefix.clone() })
            } else if string_eq_str(w, "bytes") {
                Some(FieldKind::Bytes)
            } else if string_eq_str(w, "string") {
                Some(FieldKind::Str)
            } else if string_eq_str(w, "bool") {
                Some(FieldKind::Bool)
            } else if string_eq_str(w, "float") || string_eq_str(w, "double") {
                Some(FieldKind::Float)
            } else if string_eq_str(w, "int32") || string_eq_str(w, "int64") || string_eq_str(
                w,
                "uint32",
            ) || string_eq_str(w, "uint64") {
                Some(FieldKind::Int)
            } else {
                None
            }
        },
        Meta::NameValue(nm, v) => {
            if string_eq_str(nm, "enumeration") {
                let mut s = render_prefix(prefix);
                s.append(v.as_str());
                Some(FieldKind::Enumeration(s))
            } else if string_eq_str(nm, "oneof") {
                let mut s = render_prefix(prefix);
                s.append(v.as_str());
                Some(FieldKind::OneOf(s))
            } else if string_eq_str(nm, "map") {
                Some(FieldKind::Mapping)
            } else {
                None
            }
        },
    }
}

/// The winning non-`optional` kind of an annotation's entries, and whether
/// the word `optional` occurs among them.
fn best_of_metas(metas: &Vec<Meta>, prefix: &Vec<String>) -> (r: (Option<FieldKind>, bool))
    ensures
        opt_kind_view(r.0) == spec_best_kind(metas.deep_view(), prefix.deep_view()),
        r.1 == spec_has_optional(metas.deep_view()),
{
    let ghost mv = metas.deep_view();
    let ghost pv = prefix.deep_view();
    let mut best: Option<FieldKind> = None;
    let mut has_opt: bool = false;
    let mut i: usize = 0;
    while i < metas.len()
        invariant
            i <= metas@.len(),
            mv == metas.deep_view(),
            pv == prefix.deep_view(),
            mv.len() == metas@.len(),
            spec_best_from(mv, pv, 0, None) == spec_best_from(mv, pv, i as int, opt_kind_view(best)),
            spec_has_optional_from(mv, 0) == (has_opt || spec_has_optional_from(mv, i as int)),
        decreases metas@.len() - i,
    {
        let m = &metas[i];
        proof {
            assert(m.deep_view() == mv[i as int]);
        }
        let k = meta_kind(m, prefix);
        match k {
            Some(kk) => {
                let p = precedence(&kk);
                match &best {
                    Some(b) => {
                        if p < precedence(b) {
                            best = Some(kk);
                        }
                    },
                    None => {
                        best = Some(kk);
                    },
                }
            },
            None => {
            },
        }
        match m {
            Meta::Word(w) => {
                if string_eq_str(w, "optional") {
                    has_opt = true;
                }
            },
            _ => {
            },
        }
        i = i + 1;
    }
    (best, has_opt)
}

impl FieldKind {
    /// Classifies a field from its attributes and the namespace stack of the
    /// declaration site.  The first `prost` annotation naming at least one
    /// kind decides; no such annotation is a fatal `UnknownFieldKind` error.
    pub fn from_attrs(attrs: &Vec<Attr>, prefix: &Vec<String>) -> (r: Result<FieldKind, Error>)
        ensures
            classify_result_view(r) == spec_classify(attrs.deep_view(), prefix.deep_view()),
            r matches Ok(k) ==> spec_kind_wf(kind_view(k)),
    {
        let ghost av = attrs.deep_view();
        let ghost pv = prefix.deep_view();
        let mut i: usize = 0;
        proof {
            assert(av.skip(0) =~= av);
        }
        while i < attrs.len()
            invariant
                i <= attrs@.len(),
                av == attrs.deep_view(),
                pv == prefix.deep_view(),
                av.len() == attrs@.len(),
                spec_classify(av, pv) == spec_classify(av.skip(i as int), pv),
            decreases attrs@.len() - i,
        {
            let a = &attrs[i];
            proof {
                assert(a.deep_view() == av[i as int]);
                assert(av.skip(i as int)[0] == av[i as int]);
                assert(av.skip(i as int).drop_first() =~= av.skip(i as int + 1));
            }
            if string_eq_str(&a.path, "prost") {
                let (best, has_opt) = best_of_metas(&a.metas, prefix);
                match best {
                    Some(base) => {
                        proof {
                            lemma_best_not_optional(a.deep_view().metas, pv, 0, None);
                        }
                        if has_opt {
                            let inner_ok = match &base {
                                FieldKind::Message => true,
                                FieldKind::Bytes => true,
                                FieldKind::Str => true,
                                FieldKind::Int => true,
                                FieldKind::Float => true,
                                FieldKind::Bool => true,
                                FieldKind::Enumeration(_) => true,
                                _ => false,
                            };
                            if inner_ok {
                                return Ok(FieldKind::Optional(Box::new(base)));
                            }
                            return Err(Error::UnknownFieldKind);
                        }
                        return Ok(base);
                    },
                    None => {
                    },
                }
            }
            i = i + 1;
        }
        proof {
            assert(av.skip(av.len() as int) =~= Seq::<AttrV>::empty());
        }
        Err(Error::UnknownFieldKind)
    }
}

} // verus!
