//! The accessor synthesizer.
//!
//! A pure function from a field's [`FieldKind`] and the requested
//! [`crate::GenOpt`] capability flags to the set of accessor methods to
//! emit.  Every method is emitted only when the kind produces a definition
//! for its category and the matching flag is enabled.

use vstd::prelude::*;

use crate::classify::{kind_view, spec_kind_wf, FieldKind, FieldKindV};
use crate::model::{spec_spaced_join, TypeExpr};
use crate::types::{spec_cancel_supers, spec_is_builtin_elem, spec_type_in_expr_context,
    spec_unwrap_type};
use crate::GenOpt;

verus! {

/// How a getter hands the field out.
pub enum RefType {
    /// Copied by value.
    Value,
    /// A plain borrow of the stored value.
    Ref,
    /// A borrow as another view type, such as `&str` for a string field.
    Deref(String),
}

/// Ghost form of [`RefType`].
pub enum RefTypeV {
    Value,
    Ref,
    Deref(Seq<char>),
}

/// How the field is cleared.
pub enum ClearKind {
    /// The kind produces no `clear` method.
    NotApplicable,
    /// Assign the given default expression.
    Assign(String),
    /// Delegate to the stored value's own `clear`.
    Delegate,
}

/// Ghost form of [`ClearKind`].
pub enum ClearKindV {
    NotApplicable,
    Assign(Seq<char>),
    Delegate,
}

/// How the field is set.
pub enum SetKind {
    /// The kind produces no `set` method.
    NotApplicable,
    /// Assign the given expression of the argument `v`.
    Assign(String),
}

/// Ghost form of [`SetKind`].
pub enum SetKindV {
    NotApplicable,
    Assign(Seq<char>),
}

/// How the field is read.
pub enum GetKind {
    /// Hand out the stored value directly.
    Trivial,
    /// A custom getter body.
    Custom(String),
}

/// Ghost form of [`GetKind`].
pub enum GetKindV {
    Trivial,
    Custom(Seq<char>),
}

/// How a mutable reference is handed out.
pub enum MethodKind {
    /// The kind produces no `mut` method.
    NotApplicable,
    /// A plain `&mut` borrow.
    Standard,
    /// A custom body, such as one that first fills absent storage.
    Custom(String),
}

/// Ghost form of [`MethodKind`].
pub enum MethodKindV {
    NotApplicable,
    Standard,
    Custom(Seq<char>),
}

/// The per-field method descriptions the synthesizer produces.
pub struct FieldMethods {
    /// The rendered declared type.
    pub ty: String,
    /// A replacement for the emitted value type, when the declared type is
    /// not the one the accessors speak of.
    pub override_ty: Option<String>,
    pub ref_ty: RefType,
    /// The raw field identifier, possibly in escaped `r#...` form.
    pub name: String,
    /// The display name used in generated method names.
    pub unesc_base: String,
    pub has: bool,
    pub clear: ClearKind,
    pub set: SetKind,
    pub get: GetKind,
    pub mt: MethodKind,
    pub take: Option<String>,
}

/// Ghost form of [`FieldMethods`].
pub struct FieldMethodsV {
    pub ty: Seq<char>,
    pub override_ty: Option<Seq<char>>,
    pub ref_ty: RefTypeV,
    pub name: Seq<char>,
    pub base: Seq<char>,
    pub has: bool,
    pub clear: ClearKindV,
    pub set: SetKindV,
    pub get: GetKindV,
    pub mt: MethodKindV,
    pub take: Option<Seq<char>>,
}

impl View for RefType {
    type V = RefTypeV;

    open spec fn view(&self) -> RefTypeV {
        match self {
            RefType::Value => RefTypeV::Value,
            RefType::Ref => RefTypeV::Ref,
            RefType::Deref(s) => RefTypeV::Deref(s@),
        }
    }
}

impl View for ClearKind {
    type V = ClearKindV;

    open spec fn view(&self) -> ClearKindV {
        match self {
            ClearKind::NotApplicable => ClearKindV::NotApplicable,
            ClearKind::Assign(s) => ClearKindV::Assign(s@),
            ClearKind::Delegate => ClearKindV::Delegate,
        }
    }
}

impl View for SetKind {
    type V = SetKindV;

    open spec fn view(&self) -> SetKindV {
        match self {
            SetKind::NotApplicable => SetKindV::NotApplicable,
            SetKind::Assign(s) => SetKindV::Assign(s@),
        }
    }
}

impl View for GetKind {
    type V = GetKindV;

    open spec fn view(&self) -> GetKindV {
        match self {
            GetKind::Trivial => GetKindV::Trivial,
            GetKind::Custom(s) => GetKindV::Custom(s@),
        }
    }
}

impl View for MethodKind {
    type V = MethodKindV;

    open spec fn view(&self) -> MethodKindV {
        match self {
            MethodKind::NotApplicable => MethodKindV::NotApplicable,
            MethodKind::Standard => MethodKindV::Standard,
            MethodKind::Custom(s) => MethodKindV::Custom(s@),
        }
    }
}

/// The ghost form of an optional owned string.
pub open spec fn opt_string_view(o: Option<String>) -> Option<Seq<char>> {
    match o {
        Some(s) => Some(s@),
        None => None,
    }
}

impl View for FieldMethods {
    type V = FieldMethodsV;

    open spec fn view(&self) -> FieldMethodsV {
        FieldMethodsV {
            ty: self.ty@,
            override_ty: opt_string_view(self.override_ty),
            ref_ty: self.ref_ty@,
            name: self.name@,
            base: self.unesc_base@,
            has: self.has,
            clear: self.clear@,
            set: self.set@,
            get: self.get@,
            mt: self.mt@,
            take: opt_string_view(self.take),
        }
    }
}

/// A reserved-word-safe raw identifier de-escaped to its display form.
pub open spec fn spec_unesc(name: Seq<char>) -> Seq<char> {
    if name.len() >= 2 && name[0] == 'r' && name[1] == '#' {
        name.skip(2)
    } else {
        name
    }
}

/// The defaults every kind starts from: a plain borrow, a trivial getter
/// and nothing else.
pub open spec fn spec_new_methods(tyv: Seq<Seq<char>>, name: Seq<char>) -> FieldMethodsV {
    FieldMethodsV {
        ty: spec_spaced_join(tyv),
        override_ty: None,
        ref_ty: RefTypeV::Ref,
        name: name,
        base: spec_unesc(name),
        has: false,
        clear: ClearKindV::NotApplicable,
        set: SetKindV::NotApplicable,
        get: GetKindV::Trivial,
        mt: MethodKindV::NotApplicable,
        take: None,
    }
}

/// `take` body: move the container out, leaving a fresh empty vector.
pub open spec fn spec_take_vec(name: Seq<char>) -> Seq<char> {
    "::std::mem::replace(&mut self."@ + name + ", ::std::vec::Vec::new())"@
}

/// `take` body: move the string out, leaving a fresh empty string.
pub open spec fn spec_take_string(name: Seq<char>) -> Seq<char> {
    "::std::mem::replace(&mut self."@ + name + ", ::std::string::String::new())"@
}

/// `take` body: move the value out, leaving a fresh default.
pub open spec fn spec_take_default(name: Seq<char>) -> Seq<char> {
    "::std::mem::replace(&mut self."@ + name + ", ::std::default::Default::default())"@
}

/// Getter body of an enumeration field: decode the stored integer, fatal
/// when no variant matches.
pub open spec fn spec_enum_get(t: Seq<char>, name: Seq<char>) -> Seq<char> {
    "match "@ + spec_type_in_expr_context(t) + "::from_i32(self."@ + name
        + ") { Some(e) => e, None => panic!(\"Unknown enum variant: {}\", self."@ + name + "), }"@
}

/// Getter body of an optional enumeration field: decode when present,
/// default when absent.
pub open spec fn spec_opt_enum_get(t: Seq<char>, name: Seq<char>) -> Seq<char> {
    "match self."@ + name + " { Some(v) => match "@ + spec_type_in_expr_context(t)
        + "::from_i32(v) { Some(e) => e, None => panic!(\"Unknown enum variant: {}\", v), }, None => "@
        + t + "::default(), }"@
}

/// Getter body of an optional field: the value when present, the inner
/// kind's default when absent.
pub open spec fn spec_opt_get(name: Seq<char>, as_ref: Seq<char>, init: Seq<char>) -> Seq<char> {
    "match self."@ + name + as_ref + " { Some(v) => v, None => "@ + init + ", }"@
}

/// `mut` body of an optional field: fill absent storage with a default,
/// then hand out the stored value.
pub open spec fn spec_opt_mut(name: Seq<char>, d: Seq<char>) -> Seq<char> {
    "if self."@ + name + ".is_none() { self."@ + name + " = ::std::option::Option::Some("@ + d
        + "::default()); } self."@ + name + ".as_mut().unwrap()"@
}

/// The method set of one field, as a function of its kind, declared type
/// and identifier.  `None` stands for a `oneof` field, which is excluded
/// from synthesis entirely.
pub open spec fn spec_field_methods(k: FieldKindV, tyv: Seq<Seq<char>>, name: Seq<char>) -> Option<
    FieldMethodsV,
>
    decreases k,
{
    let m = spec_new_methods(tyv, name);
    match k {
        FieldKindV::OneOf(_) => None,
        FieldKindV::Int => Some(
            FieldMethodsV {
                ref_ty: RefTypeV::Value,
                clear: ClearKindV::Assign("0"@),
                set: SetKindV::Assign("v"@),
                ..m
            },
        ),
        FieldKindV::Float => Some(
            FieldMethodsV {
                ref_ty: RefTypeV::Value,
                clear: ClearKindV::Assign("0."@),
                set: SetKindV::Assign("v"@),
                ..m
            },
        ),
        FieldKindV::Bool => Some(
            FieldMethodsV {
                ref_ty: RefTypeV::Value,
                clear: ClearKindV::Assign("false"@),
                set: SetKindV::Assign("v"@),
                ..m
            },
        ),
        FieldKindV::Str => Some(
            FieldMethodsV {
                ref_ty: RefTypeV::Deref("str"@),
                clear: ClearKindV::Delegate,
                set: SetKindV::Assign("v"@),
                mt: MethodKindV::Standard,
                take: Some(spec_take_string(name)),
                ..m
            },
        ),
        FieldKindV::Bytes => Some(
            FieldMethodsV {
                ref_ty: RefTypeV::Deref("[u8]"@),
                clear: ClearKindV::Delegate,
                set: SetKindV::Assign("v"@),
                mt: MethodKindV::Standard,
                take: Some(spec_take_vec(name)),
                ..m
            },
        ),
        FieldKindV::Message => {
            let unboxed = spec_unwrap_type(tyv, "Box"@);
            Some(
                FieldMethodsV {
                    ref_ty: if unboxed != tyv {
                        RefTypeV::Deref(spec_spaced_join(unboxed))
                    } else {
                        RefTypeV::Ref
                    },
                    set: SetKindV::Assign("v"@),
                    mt: MethodKindV::Standard,
                    take: Some(spec_take_default(name)),
                    ..m
                },
            )
        },
        FieldKindV::Mapping => Some(
            FieldMethodsV {
                clear: ClearKindV::Delegate,
                mt: MethodKindV::Standard,
                take: Some(spec_take_default(name)),
                ..m
            },
        ),
        FieldKindV::Repeated { prefix } => {
            let elem = spec_unwrap_type(tyv, "Vec"@);
            let segs: Seq<Seq<char>> = if spec_is_builtin_elem(elem) {
                Seq::<Seq<char>>::empty()
            } else {
                prefix
            };
            let cancelled = spec_cancel_supers(segs, elem);
            let p = crate::model::spec_render_prefix(cancelled.0);
            let e = spec_spaced_join(cancelled.1);
            Some(
                FieldMethodsV {
                    ref_ty: RefTypeV::Deref("["@ + p + e + "]"@),
                    override_ty: Some("::std::vec::Vec<"@ + p + e + ">"@),
                    clear: ClearKindV::Delegate,
                    mt: MethodKindV::Standard,
                    take: Some(spec_take_vec(name)),
                    ..m
                },
            )
        },
        FieldKindV::Enumeration(t) => Some(
            FieldMethodsV {
                override_ty: Some(t),
                ref_ty: RefTypeV::Value,
                clear: ClearKindV::Assign("0"@),
                set: SetKindV::Assign("v as i32"@),
                get: GetKindV::Custom(spec_enum_get(t, name)),
                ..m
            },
        ),
        FieldKindV::Optional(inner) => {
            let unwrapped = spec_unwrap_type(tyv, "Option"@);
            let unboxed = spec_unwrap_type(unwrapped, "Box"@);
            match spec_field_methods(*inner, unwrapped, name) {
                None => None,
                Some(nested) => {
                    let over = match nested.override_ty {
                        Some(t) => t,
                        None => spec_spaced_join(unwrapped),
                    };
                    let is_ref = !(nested.ref_ty is Value);
                    let mut_target: Seq<char> = match *inner {
                        FieldKindV::Bytes => "::std::vec::Vec"@,
                        FieldKindV::Repeated { .. } => "::std::vec::Vec"@,
                        _ => spec_spaced_join(unwrapped),
                    };
                    let get_body: Seq<char> = match *inner {
                        FieldKindV::Enumeration(t) => spec_opt_enum_get(t, name),
                        _ => {
                            let as_ref: Seq<char> = if is_ref {
                                ".as_ref()"@
                            } else {
                                ""@
                            };
                            let init: Seq<char> = match *inner {
                                FieldKindV::Message => spec_type_in_expr_context(
                                    spec_spaced_join(unboxed),
                                ) + "::default_ref()"@,
                                FieldKindV::Bytes => "&[]"@,
                                FieldKindV::Str => "\"\""@,
                                FieldKindV::Int => "0"@,
                                FieldKindV::Float => "0."@,
                                FieldKindV::Bool => "false"@,
                                _ => ""@,
                            };
                            spec_opt_get(name, as_ref, init)
                        },
                    };
                    Some(
                        FieldMethodsV {
                            ty: m.ty,
                            override_ty: Some(over),
                            ref_ty: nested.ref_ty,
                            name: name,
                            base: spec_unesc(name),
                            has: true,
                            clear: ClearKindV::Assign("::std::option::Option::None"@),
                            set: SetKindV::Assign(
                                match *inner {
                                    FieldKindV::Enumeration(_) =>
                                        "::std::option::Option::Some(v as i32)"@,
                                    _ => "::std::option::Option::Some(v)"@,
                                },
                            ),
                            get: GetKindV::Custom(get_body),
                            mt: if is_ref {
                                MethodKindV::Custom(
                                    spec_opt_mut(name, spec_type_in_expr_context(mut_target)),
                                )
                            } else {
                                MethodKindV::NotApplicable
                            },
                            take: match *inner {
                                FieldKindV::Message => Some(
                                    "self."@ + name + ".take().unwrap_or_else("@
                                        + spec_type_in_expr_context(spec_spaced_join(unwrapped))
                                        + "::default)"@,
                                ),
                                FieldKindV::Bytes => Some(
                                    "self."@ + name
                                        + ".take().unwrap_or_else(::std::vec::Vec::new)"@,
                                ),
                                FieldKindV::Str => Some(
                                    "self."@ + name
                                        + ".take().unwrap_or_else(::std::string::String::new)"@,
                                ),
                                _ => None,
                            },
                        },
                    )
                },
            }
        },
    }
}

/// The ghost form of an optional method description.
pub open spec fn opt_methods_view(o: Option<FieldMethods>) -> Option<FieldMethodsV> {
    match o {
        Some(m) => Some(m@),
        None => None,
    }
}

impl FieldMethods {
    /// The defaults every kind starts from.
    pub fn new(ty: &TypeExpr, ident: &String) -> (r: FieldMethods)
        ensures
            r@ == spec_new_methods(ty@, ident@),
    {
        let rendered = crate::model::spaced_join(&ty.tokens);
        let name = ident.clone();
        let unesc_base: String = if crate::strutil::str_starts_with(ident.as_str(), "r#") {
            proof {
                reveal_strlit("r#");
                assert("r#"@.len() == 2);
                assert(ident@.len() >= 2);
                assert(ident@.subrange(0, 2) =~= "r#"@);
                assert(ident@.subrange(0, 2)[0] == ident@[0]);
                assert(ident@.subrange(0, 2)[1] == ident@[1]);
                assert(ident@[0] == 'r' && ident@[1] == '#');
            }
            let n = ident.as_str().unicode_len();
            let s = ident.as_str().substring_char(2, n);
            let r = String::from_str(s);
            proof {
                assert(r@ =~= spec_unesc(ident@));
            }
            r
        } else {
            proof {
                let nv = ident@;
                if nv.len() >= 2 && nv[0] == 'r' && nv[1] == '#' {
                    reveal_strlit("r#");
                    assert(nv.subrange(0, 2) =~= "r#"@);
                    assert("r#"@.is_prefix_of(nv));
                    assert(false);
                }
            }
            ident.clone()
        };
        FieldMethods {
            ty: rendered,
            override_ty: None,
            ref_ty: RefType::Ref,
            name,
            unesc_base,
            has: false,
            clear: ClearKind::NotApplicable,
            set: SetKind::NotApplicable,
            get: GetKind::Trivial,
            mt: MethodKind::NotApplicable,
            take: None,
        }
    }
}

/// Builds the `take` body that leaves an empty vector.
fn take_vec_text(name: &String) -> (r: String)
    ensures
        r@ == spec_take_vec(name@),
{
    let mut s = String::from_str("::std::mem::replace(&mut self.");
    s.append(name.as_str());
    s.append(", ::std::vec::Vec::new())");
    s
}

/// Builds the `take` body that leaves an empty string.
fn take_string_text(name: &String) -> (r: String)
    ensures
        r@ == spec_take_string(name@),
{
    let mut s = String::from_str("::std::mem::replace(&mut self.");
    s.append(name.as_str());
    s.append(", ::std::string::String::new())");
    s
}

/// Builds the `take` body that leaves a fresh default.
fn take_default_text(name: &String) -> (r: String)
    ensures
        r@ == spec_take_default(name@),
{
    let mut s = String::from_str("::std::mem::replace(&mut self.");
    s.append(name.as_str());
    s.append(", ::std::default::Default::default())");
    s
}

/// Builds the getter body of an enumeration field.
fn enum_get_text(t: &String, name: &String) -> (r: String)
    ensures
        r@ == spec_enum_get(t@, name@),
{
    let te = crate::types::type_in_expr_context(t.as_str());
    let mut s = String::from_str("match ");
    s.append(te.as_str());
    s.append("::from_i32(self.");
    s.append(name.as_str());
    s.append(") { Some(e) => e, None => panic!(\"Unknown enum variant: {}\", self.");
    s.append(name.as_str());
    s.append("), }");
    s
}

/// Builds the getter body of an optional enumeration field.
fn opt_enum_get_text(t: &String, name: &String) -> (r: String)
    ensures
        r@ == spec_opt_enum_get(t@, name@),
{
    let te = crate::types::type_in_expr_context(t.as_str());
    let mut s = String::from_str("match self.");
    s.append(name.as_str());
    s.append(" { Some(v) => match ");
    s.append(te.as_str());
    s.append("::from_i32(v) { Some(e) => e, None => panic!(\"Unknown enum variant: {}\", v), }, None => ");
    s.append(t.as_str());
    s.append("::default(), }");
    s
}

/// Builds the getter body of an optional field.
fn opt_get_text(name: &String, as_ref: &str, init: &String) -> (r: String)
    ensures
        r@ == spec_opt_get(name@, as_ref@, init@),
{
    let mut s = String::from_str("match self.");
    s.append(name.as_str());
    s.append(as_ref);
    s.append(" { Some(v) => v, None => ");
    s.append(init.as_str());
    s.append(", }");
    s
}

/// Builds the `mut` body of an optional field.
fn opt_mut_text(name: &String, d: &String) -> (r: String)
    ensures
        r@ == spec_opt_mut(name@, d@),
{
    let mut s = String::from_str("if self.");
    s.append(name.as_str());
    s.append(".is_none() { self.");
    s.append(name.as_str());
    s.append(" = ::std::option::Option::Some(");
    s.append(d.as_str());
    s.append("::default()); } self.");
    s.append(name.as_str());
    s.append(".as_mut().unwrap()");
    s
}

/// One accessor category.
#[derive(Clone, Copy, PartialEq, Eq, Structural, Debug)]
pub enum Category {
    Getter,
    Setter,
    Clear,
    Has,
    Mutate,
    Take,
}

/// One concrete method to emit.
pub struct MethodDef {
    pub category: Category,
    /// The method name, such as `has_id`.
    pub name: String,
    /// The full emitted method text, ending with a newline.
    pub text: String,
}

/// Ghost form of [`MethodDef`].
pub struct MethodDefV {
    pub category: Category,
    pub name: Seq<char>,
    pub text: Seq<char>,
}

impl DeepView for MethodDef {
    type V = MethodDefV;

    open spec fn deep_view(&self) -> MethodDefV {
        MethodDefV { category: self.category, name: self.name@, text: self.text@ }
    }
}

/// The value type the accessors speak of: the declared type unless the kind
/// replaces it.
pub open spec fn spec_resolved_ty(m: FieldMethodsV) -> Seq<char> {
    match m.override_ty {
        Some(t) => t,
        None => m.ty,
    }
}

/// The getter's return type.
pub open spec fn spec_ref_ty(m: FieldMethodsV) -> Seq<char> {
    match m.ref_ty {
        RefTypeV::Value => spec_resolved_ty(m),
        RefTypeV::Ref => "&"@ + spec_resolved_ty(m),
        RefTypeV::Deref(s) => "&"@ + s,
    }
}

/// The text of the `has` method.
pub open spec fn spec_has_text(m: FieldMethodsV) -> Seq<char> {
    "#[inline] pub fn has_"@ + m.base + "(&self) -> bool { self."@ + m.name + ".is_some() }\n"@
}

/// The text of the `clear` method.
pub open spec fn spec_clear_text(m: FieldMethodsV) -> Seq<char> {
    match m.clear {
        ClearKindV::Assign(s) => "#[inline] pub fn clear_"@ + m.base + "(&mut self) { self."@
            + m.name + " = "@ + s + " }\n"@,
        ClearKindV::Delegate => "#[inline] pub fn clear_"@ + m.base + "(&mut self) { self."@
            + m.name + ".clear(); }\n"@,
        ClearKindV::NotApplicable => ""@,
    }
}

/// The text of the `set` method.
pub open spec fn spec_set_text(m: FieldMethodsV) -> Seq<char> {
    match m.set {
        SetKindV::Assign(s) => "#[inline] pub fn set_"@ + m.base + "(&mut self, v: "@
            + spec_resolved_ty(m) + ") { self."@ + m.name + " = "@ + s + "; }\n"@,
        SetKindV::NotApplicable => ""@,
    }
}

/// The text of the `get` method.
pub open spec fn spec_get_text(m: FieldMethodsV) -> Seq<char> {
    match m.get {
        GetKindV::Trivial => {
            if m.ref_ty is Value {
                "#[inline] pub fn get_"@ + m.base + "(&self) -> "@ + spec_ref_ty(m) + " { self."@
                    + m.name + " }\n"@
            } else {
                "#[inline] pub fn get_"@ + m.base + "(&self) -> "@ + spec_ref_ty(m) + " { &self."@
                    + m.name + " }\n"@
            }
        },
        GetKindV::Custom(s) => "#[inline] pub fn get_"@ + m.base + "(&self) -> "@ + spec_ref_ty(m)
            + " { "@ + s + " }\n"@,
    }
}

/// The text of the `mut` method.
pub open spec fn spec_mut_text(m: FieldMethodsV) -> Seq<char> {
    match m.mt {
        MethodKindV::Standard => "#[inline] pub fn mut_"@ + m.base + "(&mut self) -> &mut "@
            + spec_resolved_ty(m) + " { &mut self."@ + m.name + " }\n"@,
        MethodKindV::Custom(s) => "#[inline] pub fn mut_"@ + m.base + "(&mut self) -> &mut "@
            + spec_resolved_ty(m) + " { "@ + s + " }\n"@,
        MethodKindV::NotApplicable => ""@,
    }
}

/// The text of the `take` method.
pub open spec fn spec_take_text(m: FieldMethodsV) -> Seq<char> {
    match m.take {
        Some(s) => "#[inline] pub fn take_"@ + m.base + "(&mut self) -> "@ + spec_resolved_ty(m)
            + " { "@ + s + " }\n"@,
        None => ""@,
    }
}

/// The ordered method set one field emits under the given flags: a method
/// stands in it exactly when its kind produces that category and the
/// matching flag is enabled, in the fixed order `has`, `clear`, `set`,
/// `get`, `mut`, `take`.
pub open spec fn spec_method_set(m: FieldMethodsV, opts: GenOpt) -> Seq<MethodDefV> {
    (if m.has && opts.has {
        seq![MethodDefV { category: Category::Has, name: "has_"@ + m.base, text: spec_has_text(m) }]
    } else {
        Seq::<MethodDefV>::empty()
    }) + (if !(m.clear is NotApplicable) && opts.clear {
        seq![
            MethodDefV {
                category: Category::Clear,
                name: "clear_"@ + m.base,
                text: spec_clear_text(m),
            },
        ]
    } else {
        Seq::<MethodDefV>::empty()
    }) + (if m.set is Assign && opts.trivial_set {
        seq![MethodDefV { category: Category::Setter, name: "set_"@ + m.base, text: spec_set_text(m) }]
    } else {
        Seq::<MethodDefV>::empty()
    }) + (if opts.trivial_get {
        seq![MethodDefV { category: Category::Getter, name: "get_"@ + m.base, text: spec_get_text(m) }]
    } else {
        Seq::<MethodDefV>::empty()
    }) + (if !(m.mt is NotApplicable) && opts.mutation {
        seq![
            MethodDefV { category: Category::Mutate, name: "mut_"@ + m.base, text: spec_mut_text(m) },
        ]
    } else {
        Seq::<MethodDefV>::empty()
    }) + (if m.take is Some && opts.take {
        seq![
            MethodDefV { category: Category::Take, name: "take_"@ + m.base, text: spec_take_text(m) },
        ]
    } else {
        Seq::<MethodDefV>::empty()
    })
}

/// The concatenated text of a method list.
pub open spec fn spec_texts_concat(defs: Seq<MethodDefV>) -> Seq<char>
    decreases defs.len(),
{
    if defs.len() == 0 {
        Seq::<char>::empty()
    } else {
        spec_texts_concat(defs.drop_last()) + defs.last().text
    }
}

/// The full text one field emits under the given flags.
pub open spec fn spec_write_methods(m: FieldMethodsV, opts: GenOpt) -> Seq<char> {
    spec_texts_concat(spec_method_set(m, opts))
}

/// A set of accessor categories.
#[derive(Clone, Copy, PartialEq, Eq, Structural, Debug)]
pub struct CategorySet {
    pub get: bool,
    pub set: bool,
    pub clear: bool,
    pub has: bool,
    pub mutate: bool,
    pub take: bool,
}

/// No category at all.
pub open spec fn spec_no_categories() -> CategorySet {
    CategorySet { get: false, set: false, clear: false, has: false, mutate: false, take: false }
}

/// The categories in either set.
pub open spec fn spec_union(a: CategorySet, b: CategorySet) -> CategorySet {
    CategorySet {
        get: a.get || b.get,
        set: a.set || b.set,
        clear: a.clear || b.clear,
        has: a.has || b.has,
        mutate: a.mutate || b.mutate,
        take: a.take || b.take,
    }
}

/// The categories in both sets.
pub open spec fn spec_intersect(a: CategorySet, b: CategorySet) -> CategorySet {
    CategorySet {
        get: a.get && b.get,
        set: a.set && b.set,
        clear: a.clear && b.clear,
        has: a.has && b.has,
        mutate: a.mutate && b.mutate,
        take: a.take && b.take,
    }
}

/// The set holding one category.
pub open spec fn spec_cat_single(c: Category) -> CategorySet {
    match c {
        Category::Getter => CategorySet { get: true, ..spec_no_categories() },
        Category::Setter => CategorySet { set: true, ..spec_no_categories() },
        Category::Clear => CategorySet { clear: true, ..spec_no_categories() },
        Category::Has => CategorySet { has: true, ..spec_no_categories() },
        Category::Mutate => CategorySet { mutate: true, ..spec_no_categories() },
        Category::Take => CategorySet { take: true, ..spec_no_categories() },
    }
}

/// The categories present in an emitted method list.
pub open spec fn spec_defs_categories(defs: Seq<MethodDefV>) -> CategorySet
    decreases defs.len(),
{
    if defs.len() == 0 {
        spec_no_categories()
    } else {
        spec_union(spec_cat_single(defs[0].category), spec_defs_categories(defs.drop_first()))
    }
}

/// Concatenation gathers the categories of both lists.
proof fn lemma_defs_categories_concat(a: Seq<MethodDefV>, b: Seq<MethodDefV>)
    ensures
        spec_defs_categories(a + b) == spec_union(spec_defs_categories(a), spec_defs_categories(b)),
    decreases a.len(),
{
    if a.len() == 0 {
        assert(a + b =~= b);
    } else {
        assert((a + b)[0] == a[0]);
        assert((a + b).drop_first() =~= a.drop_first() + b);
        lemma_defs_categories_concat(a.drop_first(), b);
        assert(spec_defs_categories(a) == spec_union(
            spec_cat_single(a[0].category),
            spec_defs_categories(a.drop_first()),
        ));
        assert(spec_defs_categories(a + b) == spec_union(
            spec_cat_single(a[0].category),
            spec_union(spec_defs_categories(a.drop_first()), spec_defs_categories(b)),
        ));
    }
}

/// The categories of a one-method list.
proof fn lemma_defs_categories_singleton(d: MethodDefV)
    ensures
        spec_defs_categories(seq![d]) == spec_cat_single(d.category),
{
    assert(seq![d].drop_first() =~= Seq::<MethodDefV>::empty());
    assert(seq![d][0] == d);
    assert(spec_defs_categories(Seq::<MethodDefV>::empty()) == spec_no_categories());
    assert(spec_defs_categories(seq![d]) == spec_union(
        spec_cat_single(d.category),
        spec_no_categories(),
    ));
}

/// The categories a kind produces a definition for: the kind-applicable
/// categories of the synthesis table.
pub open spec fn spec_kind_categories(k: FieldKindV) -> CategorySet {
    match k {
        FieldKindV::Int => CategorySet { get: true, set: true, clear: true, ..spec_no_categories() },
        FieldKindV::Float => CategorySet {
            get: true,
            set: true,
            clear: true,
            ..spec_no_categories()
        },
        FieldKindV::Bool => CategorySet {
            get: true,
            set: true,
            clear: true,
            ..spec_no_categories()
        },
        FieldKindV::Str => CategorySet {
            get: true,
            set: true,
            clear: true,
            mutate: true,
            take: true,
            ..spec_no_categories()
        },
        FieldKindV::Bytes => CategorySet {
            get: true,
            set: true,
            clear: true,
            mutate: true,
            take: true,
            ..spec_no_categories()
        },
        FieldKindV::Message => CategorySet {
            get: true,
            set: true,
            mutate: true,
            take: true,
            ..spec_no_categories()
        },
        FieldKindV::Repeated { .. } => CategorySet {
            get: true,
            clear: true,
            mutate: true,
            take: true,
            ..spec_no_categories()
        },
        FieldKindV::Mapping => CategorySet {
            get: true,
            clear: true,
            mutate: true,
            take: true,
            ..spec_no_categories()
        },
        FieldKindV::Enumeration(_) => CategorySet {
            get: true,
            set: true,
            clear: true,
            ..spec_no_categories()
        },
        FieldKindV::OneOf(_) => spec_no_categories(),
        FieldKindV::Optional(inner) => {
            let deep: bool = match *inner {
                FieldKindV::Message => true,
                FieldKindV::Str => true,
                FieldKindV::Bytes => true,
                _ => false,
            };
            CategorySet { get: true, set: true, clear: true, has: true, mutate: deep, take: deep }
        },
    }
}

/// The categories the capability flags enable.
pub open spec fn spec_enabled_categories(opts: GenOpt) -> CategorySet {
    CategorySet {
        get: opts.trivial_get,
        set: opts.trivial_set,
        clear: opts.clear,
        has: opts.has,
        mutate: opts.mutation,
        take: opts.take,
    }
}

/// The categories an emitted method set holds, as a function of the field's
/// method descriptions and the flags.
proof fn lemma_method_set_categories(m: FieldMethodsV, opts: GenOpt)
    ensures
        spec_defs_categories(spec_method_set(m, opts)) == (CategorySet {
            get: opts.trivial_get,
            set: m.set is Assign && opts.trivial_set,
            clear: !(m.clear is NotApplicable) && opts.clear,
            has: m.has && opts.has,
            mutate: !(m.mt is NotApplicable) && opts.mutation,
            take: m.take is Some && opts.take,
        }),
{
    let s1: Seq<MethodDefV> = if m.has && opts.has {
        seq![MethodDefV { category: Category::Has, name: "has_"@ + m.base, text: spec_has_text(m) }]
    } else {
        Seq::<MethodDefV>::empty()
    };
    let s2: Seq<MethodDefV> = if !(m.clear is NotApplicable) && opts.clear {
        seq![
            MethodDefV {
                category: Category::Clear,
                name: "clear_"@ + m.base,
                text: spec_clear_text(m),
            },
        ]
    } else {
        Seq::<MethodDefV>::empty()
    };
    let s3: Seq<MethodDefV> = if m.set is Assign && opts.trivial_set {
        seq![
            MethodDefV { category: Category::Setter, name: "set_"@ + m.base, text: spec_set_text(m) },
        ]
    } else {
        Seq::<MethodDefV>::empty()
    };
    let s4: Seq<MethodDefV> = if opts.trivial_get {
        seq![
            MethodDefV { category: Category::Getter, name: "get_"@ + m.base, text: spec_get_text(m) },
        ]
    } else {
        Seq::<MethodDefV>::empty()
    };
    let s5: Seq<MethodDefV> = if !(m.mt is NotApplicable) && opts.mutation {
        seq![
            MethodDefV { category: Category::Mutate, name: "mut_"@ + m.base, text: spec_mut_text(m) },
        ]
    } else {
        Seq::<MethodDefV>::empty()
    };
    let s6: Seq<MethodDefV> = if m.take is Some && opts.take {
        seq![
            MethodDefV { category: Category::Take, name: "take_"@ + m.base, text: spec_take_text(m) },
        ]
    } else {
        Seq::<MethodDefV>::empty()
    };
    assert(spec_method_set(m, opts) == s1 + s2 + s3 + s4 + s5 + s6);
    lemma_defs_categories_concat(s1 + s2 + s3 + s4 + s5, s6);
    lemma_defs_categories_concat(s1 + s2 + s3 + s4, s5);
    lemma_defs_categories_concat(s1 + s2 + s3, s4);
    lemma_defs_categories_concat(s1 + s2, s3);
    lemma_defs_categories_concat(s1, s2);
    if m.has && opts.has {
        lemma_defs_categories_singleton(s1[0]);
    }
    if !(m.clear is NotApplicable) && opts.clear {
        lemma_defs_categories_singleton(s2[0]);
    }
    if m.set is Assign && opts.trivial_set {
        lemma_defs_categories_singleton(s3[0]);
    }
    if opts.trivial_get {
        lemma_defs_categories_singleton(s4[0]);
    }
    if !(m.mt is NotApplicable) && opts.mutation {
        lemma_defs_categories_singleton(s5[0]);
    }
    if m.take is Some && opts.take {
        lemma_defs_categories_singleton(s6[0]);
    }
}

/// Flag-intersection law: for every flag set and every well-formed field
/// kind, the emitted method categories equal exactly the kind-applicable
/// categories intersected with the enabled flags.  A `oneof` field emits
/// nothing, matching its empty applicable set.
pub proof fn lemma_flag_intersection(k: FieldKindV, tyv: Seq<Seq<char>>, name: Seq<char>, opts: GenOpt)
    requires
        spec_kind_wf(k),
    ensures
        (match spec_field_methods(k, tyv, name) {
            Some(m) => spec_defs_categories(spec_method_set(m, opts)),
            None => spec_no_categories(),
        }) == spec_intersect(spec_kind_categories(k), spec_enabled_categories(opts)),
{
    match spec_field_methods(k, tyv, name) {
        None => {
        },
        Some(m) => {
            lemma_method_set_categories(m, opts);
            match k {
                FieldKindV::Optional(inner) => {
                    let unwrapped = spec_unwrap_type(tyv, "Option"@);
                    let nested = spec_field_methods(*inner, unwrapped, name)->Some_0;
                    match *inner {
                        FieldKindV::Message => {
                            assert(!(nested.ref_ty is Value));
                        },
                        FieldKindV::Str => {
                            assert(!(nested.ref_ty is Value));
                        },
                        FieldKindV::Bytes => {
                            assert(!(nested.ref_ty is Value));
                        },
                        FieldKindV::Int => {
                            assert(nested.ref_ty is Value);
                        },
                        FieldKindV::Float => {
                            assert(nested.ref_ty is Value);
                        },
                        FieldKindV::Bool => {
                            assert(nested.ref_ty is Value);
                        },
                        FieldKindV::Enumeration(_) => {
                            assert(nested.ref_ty is Value);
                        },
                        _ => {
                            assert(false);
                        },
                    }
                },
                _ => {
                },
            }
        },
    }
}

/// Builds a method name from its category prefix and the field's display
/// name.
fn method_name(prefix: &str, base: &String) -> (r: String)
    ensures
        r@ == prefix@ + base@,
{
    let mut s = String::from_str(prefix);
    s.append(base.as_str());
    s
}

impl FieldMethods {
    /// The value type the accessors speak of.
    fn resolved_ty(&self) -> (r: String)
        ensures
            r@ == spec_resolved_ty(self@),
    {
        match &self.override_ty {
            Some(t) => t.clone(),
            None => self.ty.clone(),
        }
    }

    /// The getter's return type.
    fn ref_ty_text(&self) -> (r: String)
        ensures
            r@ == spec_ref_ty(self@),
    {
        match &self.ref_ty {
            RefType::Value => self.resolved_ty(),
            RefType::Ref => {
                let mut s = String::from_str("&");
                let t = self.resolved_ty();
                s.append(t.as_str());
                s
            },
            RefType::Deref(d) => {
                let mut s = String::from_str("&");
                s.append(d.as_str());
                s
            },
        }
    }

    /// The text of the `has` method.
    fn has_text(&self) -> (r: String)
        ensures
            r@ == spec_has_text(self@),
    {
        let mut s = String::from_str("#[inline] pub fn has_");
        s.append(self.unesc_base.as_str());
        s.append("(&self) -> bool { self.");
        s.append(self.name.as_str());
        s.append(".is_some() }\n");
        s
    }

    /// The text of the `clear` method.
    fn clear_text(&self) -> (r: String)
        requires
            !(self.clear is NotApplicable),
        ensures
            r@ == spec_clear_text(self@),
    {
        let mut s = String::from_str("#[inline] pub fn clear_");
        s.append(self.unesc_base.as_str());
        s.append("(&mut self) { self.");
        s.append(self.name.as_str());
        match &self.clear {
            ClearKind::Assign(e) => {
                s.append(" = ");
                s.append(e.as_str());
                s.append(" }\n");
            },
            _ => {
                s.append(".clear(); }\n");
            },
        }
        s
    }

    /// The text of the `set` method.
    fn set_text(&self) -> (r: String)
        requires
            self.set is Assign,
        ensures
            r@ == spec_set_text(self@),
    {
        let mut s = String::from_str("#[inline] pub fn set_");
        s.append(self.unesc_base.as_str());
        s.append("(&mut self, v: ");
        let t = self.resolved_ty();
        s.append(t.as_str());
        s.append(") { self.");
        s.append(self.name.as_str());
        s.append(" = ");
        match &self.set {
            SetKind::Assign(e) => {
                s.append(e.as_str());
            },
            _ => {
            },
        }
        s.append("; }\n");
        s
    }

    /// The text of the `get` method.
    fn get_text(&self) -> (r: String)
        ensures
            r@ == spec_get_text(self@),
    {
        let mut s = String::from_str("#[inline] pub fn get_");
        s.append(self.unesc_base.as_str());
        s.append("(&self) -> ");
        let rt = self.ref_ty_text();
        s.append(rt.as_str());
        match &self.get {
            GetKind::Trivial => {
                match &self.ref_ty {
                    RefType::Value => {
                        s.append(" { self.");
                    },
                    _ => {
                        s.append(" { &self.");
                    },
                }
                s.append(self.name.as_str());
                s.append(" }\n");
            },
            GetKind::Custom(b) => {
                s.append(" { ");
                s.append(b.as_str());
                s.append(" }\n");
            },
        }
        s
    }

    /// The text of the `mut` method.
    fn mut_text(&self) -> (r: String)
        requires
            !(self.mt is NotApplicable),
        ensures
            r@ == spec_mut_text(self@),
    {
        let mut s = String::from_str("#[inline] pub fn mut_");
        s.append(self.unesc_base.as_str());
        s.append("(&mut self) -> &mut ");
        let t = self.resolved_ty();
        s.append(t.as_str());
        match &self.mt {
            MethodKind::Standard => {
                s.append(" { &mut self.");
                s.append(self.name.as_str());
                s.append(" }\n");
            },
            MethodKind::Custom(b) => {
                s.append(" { ");
                s.append(b.as_str());
                s.append(" }\n");
            },
            MethodKind::NotApplicable => {
            },
        }
        s
    }

    /// The text of the `take` method.
    fn take_text(&self) -> (r: String)
        requires
            self.take is Some,
        ensures
            r@ == spec_take_text(self@),
    {
        let mut s = String::from_str("#[inline] pub fn take_");
        s.append(self.unesc_base.as_str());
        s.append("(&mut self) -> ");
        let t = self.resolved_ty();
        s.append(t.as_str());
        s.append(" { ");
        match &self.take {
            Some(b) => {
                s.append(b.as_str());
            },
            None => {
            },
        }
        s.append(" }\n");
        s
    }

    /// The ordered method set this field emits under the given flags.
    #[verifier::rlimit(50)]
    pub fn method_set(&self, opts: GenOpt) -> (r: Vec<MethodDef>)
        ensures
            r.deep_view() == spec_method_set(self@, opts),
    {
        let ghost mv = self@;
        let ghost p1: Seq<MethodDefV> = if mv.has && opts.has {
            seq![MethodDefV { category: Category::Has, name: "has_"@ + mv.base, text: spec_has_text(mv) }]
        } else {
            Seq::<MethodDefV>::empty()
        };
        let ghost p2: Seq<MethodDefV> = if !(mv.clear is NotApplicable) && opts.clear {
            seq![MethodDefV { category: Category::Clear, name: "clear_"@ + mv.base, text: spec_clear_text(mv) }]
        } else {
            Seq::<MethodDefV>::empty()
        };
        let ghost p3: Seq<MethodDefV> = if mv.set is Assign && opts.trivial_set {
            seq![MethodDefV { category: Category::Setter, name: "set_"@ + mv.base, text: spec_set_text(mv) }]
        } else {
            Seq::<MethodDefV>::empty()
        };
        let ghost p4: Seq<MethodDefV> = if opts.trivial_get {
            seq![MethodDefV { category: Category::Getter, name: "get_"@ + mv.base, text: spec_get_text(mv) }]
        } else {
            Seq::<MethodDefV>::empty()
        };
        let ghost p5: Seq<MethodDefV> = if !(mv.mt is NotApplicable) && opts.mutation {
            seq![MethodDefV { category: Category::Mutate, name: "mut_"@ + mv.base, text: spec_mut_text(mv) }]
        } else {
            Seq::<MethodDefV>::empty()
        };
        let ghost p6: Seq<MethodDefV> = if mv.take is Some && opts.take {
            seq![MethodDefV { category: Category::Take, name: "take_"@ + mv.base, text: spec_take_text(mv) }]
        } else {
            Seq::<MethodDefV>::empty()
        };
        let mut out: Vec<MethodDef> = Vec::new();
        if self.has && opts.has {
            let ghost pre = out;
            let d = MethodDef {
                category: Category::Has,
                name: method_name("has_", &self.unesc_base),
                text: self.has_text(),
            };
            let ghost gd = d;
            out.push(d);
            proof {
                crate::model::lemma_deep_view_push(pre, out, gd);
            }
        }
        proof {
            assert(out.deep_view() =~= p1);
        }
        let emit_clear = match &self.clear {
            ClearKind::NotApplicable => false,
            _ => opts.clear,
        };
        if emit_clear {
            let ghost pre = out;
            let d = MethodDef {
                category: Category::Clear,
                name: method_name("clear_", &self.unesc_base),
                text: self.clear_text(),
            };
            let ghost gd = d;
            out.push(d);
            proof {
                crate::model::lemma_deep_view_push(pre, out, gd);
            }
        }
        proof {
            assert(out.deep_view() =~= p1 + p2);
        }
        let emit_set = match &self.set {
            SetKind::Assign(_) => opts.trivial_set,
            _ => false,
        };
        if emit_set {
            let ghost pre = out;
            let d = MethodDef {
                category: Category::Setter,
                name: method_name("set_", &self.unesc_base),
                text: self.set_text(),
            };
            let ghost gd = d;
            out.push(d);
            proof {
                crate::model::lemma_deep_view_push(pre, out, gd);
            }
        }
        proof {
            assert(out.deep_view() =~= p1 + p2 + p3);
        }
        if opts.trivial_get {
            let ghost pre = out;
            let d = MethodDef {
                category: Category::Getter,
                name: method_name("get_", &self.unesc_base),
                text: self.get_text(),
            };
            let ghost gd = d;
            out.push(d);
            proof {
                crate::model::lemma_deep_view_push(pre, out, gd);
            }
        }
        proof {
            assert(out.deep_view() =~= p1 + p2 + p3 + p4);
        }
        let emit_mut = match &self.mt {
            MethodKind::NotApplicable => false,
            _ => opts.mutation,
        };
        if emit_mut {
            let ghost pre = out;
            let d = MethodDef {
                category: Category::Mutate,
                name: method_name("mut_", &self.unesc_base),
                text: self.mut_text(),
            };
            let ghost gd = d;
            out.push(d);
            proof {
                crate::model::lemma_deep_view_push(pre, out, gd);
            }
        }
        proof {
            assert(out.deep_view() =~= p1 + p2 + p3 + p4 + p5);
        }
        let emit_take = match &self.take {
            Some(_) => opts.take,
            None => false,
        };
        if emit_take {
            let ghost pre = out;
            let d = MethodDef {
                category: Category::Take,
                name: method_name("take_", &self.unesc_base),
                text: self.take_text(),
            };
            let ghost gd = d;
            out.push(d);
            proof {
                crate::model::lemma_deep_view_push(pre, out, gd);
            }
        }
        proof {
            assert(out.deep_view() =~= p1 + p2 + p3 + p4 + p5 + p6);
            assert(spec_method_set(mv, opts) == p1 + p2 + p3 + p4 + p5 + p6);
        }
        out
    }

    /// The full text this field emits under the given flags: every enabled
    /// method, in the fixed order.
    pub fn write_methods(&self, opts: GenOpt) -> (r: String)
        ensures
            r@ == spec_write_methods(self@, opts),
    {
        let defs = self.method_set(opts);
        let ghost dv = defs.deep_view();
        let mut s = String::new();
        let mut i: usize = 0;
        proof {
            assert(s@ =~= spec_texts_concat(dv.take(0)));
        }
        while i < defs.len()
            invariant
                dv == defs.deep_view(),
                dv.len() == defs@.len(),
                i <= defs@.len(),
                s@ == spec_texts_concat(dv.take(i as int)),
            decreases defs@.len() - i,
        {
            s.append(defs[i].text.as_str());
            i = i + 1;
            proof {
                assert(dv.take(i as int).drop_last() =~= dv.take(i - 1));
                assert(dv.take(i as int).last() == dv[i - 1]);
                assert(defs[i - 1].deep_view() == dv[i - 1]);
            }
        }
        proof {
            assert(dv.take(dv.len() as int) =~= dv);
        }
        s
    }
}

impl FieldKind {
    /// The method set of one field: which accessors exist for its kind and
    /// how each is implemented.  A `oneof` field yields nothing: those
    /// require hand-authored code.
    pub fn methods(&self, ty: &TypeExpr, ident: &String) -> (r: Option<FieldMethods>)
        requires
            spec_kind_wf(kind_view(*self)),
        ensures
            opt_methods_view(r) == spec_field_methods(kind_view(*self), ty@, ident@),
        decreases *self,
    {
        match self {
            FieldKind::OneOf(_) => None,
            FieldKind::Int => {
                let mut m = FieldMethods::new(ty, ident);
                m.ref_ty = RefType::Value;
                m.clear = ClearKind::Assign(String::from_str("0"));
                m.set = SetKind::Assign(String::from_str("v"));
                Some(m)
            },
            FieldKind::Float => {
                let mut m = FieldMethods::new(ty, ident);
                m.ref_ty = RefType::Value;
                m.clear = ClearKind::Assign(String::from_str("0."));
                m.set = SetKind::Assign(String::from_str("v"));
                Some(m)
            },
            FieldKind::Bool => {
                let mut m = FieldMethods::new(ty, ident);
                m.ref_ty = RefType::Value;
                m.clear = ClearKind::Assign(String::from_str("false"));
                m.set = SetKind::Assign(String::from_str("v"));
                Some(m)
            },
            FieldKind::Str => {
                let mut m = FieldMethods::new(ty, ident);
                m.ref_ty = RefType::Deref(String::from_str("str"));
                m.clear = ClearKind::Delegate;
                m.set = SetKind::Assign(String::from_str("v"));
                m.mt = MethodKind::Standard;
                m.take = Some(take_string_text(&m.name));
                Some(m)
            },
            FieldKind::Bytes => {
                let mut m = FieldMethods::new(ty, ident);
                m.ref_ty = RefType::Deref(String::from_str("[u8]"));
                m.clear = ClearKind::Delegate;
                m.set = SetKind::Assign(String::from_str("v"));
                m.mt = MethodKind::Standard;
                m.take = Some(take_vec_text(&m.name));
                Some(m)
            },
            FieldKind::Message => {
                let mut m = FieldMethods::new(ty, ident);
                let unboxed = crate::types::unwrap_type(ty, "Box");
                if !crate::model::toks_eq(&unboxed.tokens, &ty.tokens) {
                    m.ref_ty = RefType::Deref(crate::model::spaced_join(&unboxed.tokens));
                } else {
                    m.ref_ty = RefType::Ref;
                }
                m.set = SetKind::Assign(String::from_str("v"));
                m.mt = MethodKind::Standard;
                m.take = Some(take_default_text(&m.name));
                Some(m)
            },
            FieldKind::Mapping => {
                let mut m = FieldMethods::new(ty, ident);
                m.clear = ClearKind::Delegate;
                m.mt = MethodKind::Standard;
                m.take = Some(take_default_text(&m.name));
                Some(m)
            },
            FieldKind::Repeated { prefix } => {
                let mut m = FieldMethods::new(ty, ident);
                let elem = crate::types::unwrap_type(ty, "Vec");
                let empty_prefix: Vec<String> = Vec::new();
                let cancelled = if crate::types::is_builtin_elem(&elem.tokens) {
                    proof {
                        assert(empty_prefix.deep_view() =~= Seq::<Seq<char>>::empty());
                    }
                    crate::types::cancel_supers(&empty_prefix, &elem.tokens)
                } else {
                    crate::types::cancel_supers(prefix, &elem.tokens)
                };
                let pstr = crate::model::render_prefix(&cancelled.0);
                let estr = crate::model::spaced_join(&cancelled.1);
                let mut dr = String::from_str("[");
                dr.append(pstr.as_str());
                dr.append(estr.as_str());
                dr.append("]");
                m.ref_ty = RefType::Deref(dr);
                let mut ov = String::from_str("::std::vec::Vec<");
                ov.append(pstr.as_str());
                ov.append(estr.as_str());
                ov.append(">");
                m.override_ty = Some(ov);
                m.clear = ClearKind::Delegate;
                m.mt = MethodKind::Standard;
                m.take = Some(take_vec_text(&m.name));
                Some(m)
            },
            FieldKind::Enumeration(t) => {
                let mut m = FieldMethods::new(ty, ident);
                m.override_ty = Some(t.clone());
                m.ref_ty = RefType::Value;
                m.clear = ClearKind::Assign(String::from_str("0"));
                m.set = SetKind::Assign(String::from_str("v as i32"));
                m.get = GetKind::Custom(enum_get_text(t, ident));
                Some(m)
            },
            FieldKind::Optional(inner) => {
                let unwrapped = crate::types::unwrap_type(ty, "Option");
                let unboxed = crate::types::unwrap_type(&unwrapped, "Box");
                let nested_opt = inner.methods(&unwrapped, ident);
                match nested_opt {
                    None => {
                        proof {
                            assert(false);
                        }
                        None
                    },
                    Some(nested) => {
                        let rendered_unwrapped = crate::model::spaced_join(&unwrapped.tokens);
                        let mut m = FieldMethods::new(ty, ident);
                        let over: String = match &nested.override_ty {
                            Some(t) => t.clone(),
                            None => rendered_unwrapped.clone(),
                        };
                        let is_ref: bool = match &nested.ref_ty {
                            RefType::Value => false,
                            _ => true,
                        };
                        m.override_ty = Some(over);
                        m.ref_ty = nested.ref_ty;
                        m.has = true;
                        m.clear = ClearKind::Assign(String::from_str("::std::option::Option::None"));
                        m.set = match &**inner {
                            FieldKind::Enumeration(_) => SetKind::Assign(
                                String::from_str("::std::option::Option::Some(v as i32)"),
                            ),
                            _ => SetKind::Assign(String::from_str("::std::option::Option::Some(v)")),
                        };
                        m.get = match &**inner {
                            FieldKind::Enumeration(t) => GetKind::Custom(opt_enum_get_text(t, ident)),
                            _ => {
                                let as_ref: &str = if is_ref {
                                    ".as_ref()"
                                } else {
                                    ""
                                };
                                let init: String = match &**inner {
                                    FieldKind::Message => {
                                        let rendered_unboxed = crate::model::spaced_join(
                                            &unboxed.tokens,
                                        );
                                        let mut s = crate::types::type_in_expr_context(
                                            rendered_unboxed.as_str(),
                                        );
                                        s.append("::default_ref()");
                                        s
                                    },
                                    FieldKind::Bytes => String::from_str("&[]"),
                                    FieldKind::Str => String::from_str("\"\""),
                                    FieldKind::Int => String::from_str("0"),
                                    FieldKind::Float => String::from_str("0."),
                                    FieldKind::Bool => String::from_str("false"),
                                    _ => String::new(),
                                };
                                GetKind::Custom(opt_get_text(ident, as_ref, &init))
                            },
                        };
                        m.mt = if is_ref {
                            let mut_target: String = match &**inner {
                                FieldKind::Bytes => String::from_str("::std::vec::Vec"),
                                FieldKind::Repeated { .. } => String::from_str("::std::vec::Vec"),
                                _ => rendered_unwrapped.clone(),
                            };
                            let d = crate::types::type_in_expr_context(mut_target.as_str());
                            MethodKind::Custom(opt_mut_text(ident, &d))
                        } else {
                            MethodKind::NotApplicable
                        };
                        m.take = match &**inner {
                            FieldKind::Message => {
                                let te = crate::types::type_in_expr_context(
                                    rendered_unwrapped.as_str(),
                                );
                                let mut s = String::from_str("self.");
                                s.append(ident.as_str());
                                s.append(".take().unwrap_or_else(");
                                s.append(te.as_str());
                                s.append("::default)");
                                Some(s)
                            },
                            FieldKind::Bytes => {
                                let mut s = String::from_str("self.");
                                s.append(ident.as_str());
                                s.append(".take().unwrap_or_else(::std::vec::Vec::new)");
                                Some(s)
                            },
                            FieldKind::Str => {
                                let mut s = String::from_str("self.");
                                s.append(ident.as_str());
                                s.append(".take().unwrap_or_else(::std::string::String::new)");
                                Some(s)
                            },
                            _ => None,
                        };
                        Some(m)
                    },
                }
            },
        }
    }
}

} // verus!
