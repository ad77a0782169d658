//! Structural model of one generated type-definition file.
//!
//! The loader turns raw source text into this model; every later pass works
//! on it.  Declarations are kept in document order, each carrying the stack
//! of namespace segments it was found under.

use vstd::prelude::*;

use crate::strutil::push_char;

verus! {

/// A declared type expression, kept as its token list (identifiers and
/// punctuation such as `::`, `<` and `>`), in source order.
pub struct TypeExpr {
    pub tokens: Vec<String>,
}

impl View for TypeExpr {
    type V = Seq<Seq<char>>;

    open spec fn view(&self) -> Seq<Seq<char>> {
        self.tokens.deep_view()
    }
}

impl Clone for TypeExpr {
    fn clone(&self) -> (r: Self)
        ensures
            r@ == self@,
    {
        TypeExpr { tokens: self.tokens.clone() }
    }
}

/// One entry of an annotation's argument list.
pub enum Meta {
    /// A bare word, such as `message` or `repeated`.
    Word(String),
    /// A `name = "value"` pair; the value is kept without its quotes.
    NameValue(String, String),
}

/// Ghost form of [`Meta`].
pub enum MetaV {
    Word(Seq<char>),
    NameValue(Seq<char>, Seq<char>),
}

impl DeepView for Meta {
    type V = MetaV;

    open spec fn deep_view(&self) -> MetaV {
        match self {
            Meta::Word(w) => MetaV::Word(w@),
            Meta::NameValue(n, v) => MetaV::NameValue(n@, v@),
        }
    }
}

/// One attribute of a declaration or field.
pub struct Attr {
    /// The attribute path, joined with `::` when it has several segments.
    pub path: String,
    /// Every token after the path, joined with single spaces.
    pub tokens: String,
    /// The argument list, when the tokens form a parenthesized list.
    pub metas: Vec<Meta>,
}

/// Ghost form of [`Attr`].
pub struct AttrV {
    pub path: Seq<char>,
    pub tokens: Seq<char>,
    pub metas: Seq<MetaV>,
}

impl DeepView for Attr {
    type V = AttrV;

    open spec fn deep_view(&self) -> AttrV {
        AttrV { path: self.path@, tokens: self.tokens@, metas: self.metas.deep_view() }
    }
}

/// One named, typed, annotated field of a struct-like declaration.
pub struct FieldDecl {
    /// The raw identifier, possibly in escaped `r#...` form.
    pub name: String,
    pub ty: TypeExpr,
    pub attrs: Vec<Attr>,
}

/// Ghost form of [`FieldDecl`].
pub struct FieldDeclV {
    pub name: Seq<char>,
    pub ty: Seq<Seq<char>>,
    pub attrs: Seq<AttrV>,
}

impl DeepView for FieldDecl {
    type V = FieldDeclV;

    open spec fn deep_view(&self) -> FieldDeclV {
        FieldDeclV { name: self.name@, ty: self.ty@, attrs: self.attrs.deep_view() }
    }
}

/// One variant of an enum-like declaration.
pub struct Variant {
    pub name: String,
    /// The declared discriminant, or the variant's position when none is
    /// declared.
    pub number: i32,
}

/// Ghost form of [`Variant`].
pub struct VariantV {
    pub name: Seq<char>,
    pub number: int,
}

impl DeepView for Variant {
    type V = VariantV;

    open spec fn deep_view(&self) -> VariantV {
        VariantV { name: self.name@, number: self.number as int }
    }
}

/// A struct-like declaration together with the namespace it lives under.
pub struct StructDecl {
    /// The stack of enclosing namespace segments, outermost first.
    pub prefix: Vec<String>,
    pub name: String,
    pub attrs: Vec<Attr>,
    pub fields: Vec<FieldDecl>,
}

/// Ghost form of [`StructDecl`].
pub struct StructDeclV {
    pub prefix: Seq<Seq<char>>,
    pub name: Seq<char>,
    pub attrs: Seq<AttrV>,
    pub fields: Seq<FieldDeclV>,
}

impl DeepView for StructDecl {
    type V = StructDeclV;

    open spec fn deep_view(&self) -> StructDeclV {
        StructDeclV {
            prefix: self.prefix.deep_view(),
            name: self.name@,
            attrs: self.attrs.deep_view(),
            fields: self.fields.deep_view(),
        }
    }
}

/// An enum-like declaration together with the namespace it lives under.
pub struct EnumDecl {
    /// The stack of enclosing namespace segments, outermost first.
    pub prefix: Vec<String>,
    pub name: String,
    pub attrs: Vec<Attr>,
    pub variants: Vec<Variant>,
}

/// Ghost form of [`EnumDecl`].
pub struct EnumDeclV {
    pub prefix: Seq<Seq<char>>,
    pub name: Seq<char>,
    pub attrs: Seq<AttrV>,
    pub variants: Seq<VariantV>,
}

impl DeepView for EnumDecl {
    type V = EnumDeclV;

    open spec fn deep_view(&self) -> EnumDeclV {
        EnumDeclV {
            prefix: self.prefix.deep_view(),
            name: self.name@,
            attrs: self.attrs.deep_view(),
            variants: self.variants.deep_view(),
        }
    }
}

/// One processed declaration of a source unit.
pub enum Decl {
    Struct(StructDecl),
    Enum(EnumDecl),
}

/// Ghost form of [`Decl`].
pub enum DeclV {
    Struct(StructDeclV),
    Enum(EnumDeclV),
}

impl DeepView for Decl {
    type V = DeclV;

    open spec fn deep_view(&self) -> DeclV {
        match self {
            Decl::Struct(s) => DeclV::Struct(s.deep_view()),
            Decl::Enum(e) => DeclV::Enum(e.deep_view()),
        }
    }
}

/// One parsed input file: its declarations in document order.
pub struct SourceUnit {
    pub decls: Vec<Decl>,
}

impl View for SourceUnit {
    type V = Seq<DeclV>;

    open spec fn view(&self) -> Seq<DeclV> {
        self.decls.deep_view()
    }
}

/// Pushing one element extends the deep view by that element's view.
pub proof fn lemma_deep_view_push<T: DeepView>(pre: Vec<T>, post: Vec<T>, x: T)
    requires
        post@ == pre@.push(x),
    ensures
        post.deep_view() == pre.deep_view().push(x.deep_view()),
{
    assert forall|j: int| 0 <= j < post.deep_view().len() implies post.deep_view()[j]
        == pre.deep_view().push(x.deep_view())[j] by {
        if j < pre@.len() {
            assert(post@[j] == pre@[j]);
        } else {
            assert(post@[j] == x);
        }
    }
    assert(post.deep_view() =~= pre.deep_view().push(x.deep_view()));
}

/// The tokens joined with single spaces, the way a declared type is written
/// back into output text.
pub open spec fn spec_spaced_join(ts: Seq<Seq<char>>) -> Seq<char>
    decreases ts.len(),
{
    if ts.len() == 0 {
        Seq::<char>::empty()
    } else if ts.len() == 1 {
        ts[0]
    } else {
        spec_spaced_join(ts.drop_last()) + seq![' '] + ts.last()
    }
}

/// Renders a token list with single spaces between tokens.
pub fn spaced_join(ts: &Vec<String>) -> (r: String)
    ensures
        r@ == spec_spaced_join(ts.deep_view()),
{
    let mut r = String::new();
    let mut i: usize = 0;
    proof {
        assert(r@ =~= spec_spaced_join(ts.deep_view().take(0)));
    }
    while i < ts.len()
        invariant
            i <= ts@.len(),
            ts.deep_view().len() == ts@.len(),
            r@ == spec_spaced_join(ts.deep_view().take(i as int)),
        decreases ts@.len() - i,
    {
        if i > 0 {
            push_char(&mut r, ' ');
        }
        r.append(ts[i].as_str());
        i = i + 1;
        proof {
            let tv = ts.deep_view();
            assert(tv.take(i as int).drop_last() =~= tv.take(i - 1));
            assert(tv.take(i as int).last() == tv[i - 1]);
            if i > 1 {
                assert(r@ =~= spec_spaced_join(tv.take(i as int)));
            } else {
                assert(r@ =~= tv[0]);
            }
        }
    }
    proof {
        assert(ts.deep_view().take(ts@.len() as int) =~= ts.deep_view());
    }
    r
}

/// Copies a list of strings, keeping its deep view.
pub fn clone_strings(v: &Vec<String>) -> (r: Vec<String>)
    ensures
        r.deep_view() == v.deep_view(),
{
    let mut r: Vec<String> = Vec::new();
    let mut i: usize = 0;
    proof {
        assert(r.deep_view() =~= v.deep_view().take(0));
    }
    while i < v.len()
        invariant
            i <= v@.len(),
            r.deep_view() == v.deep_view().take(i as int),
        decreases v@.len() - i,
    {
        let ghost pre = r;
        let e = v[i].clone();
        let ghost ge = e;
        r.push(e);
        i = i + 1;
        proof {
            lemma_deep_view_push(pre, r, ge);
            assert(r.deep_view() =~= v.deep_view().take(i as int));
        }
    }
    proof {
        assert(v.deep_view().take(v@.len() as int) =~= v.deep_view());
    }
    r
}

/// Character-for-character equality of two token lists.
pub fn toks_eq(a: &Vec<String>, b: &Vec<String>) -> (r: bool)
    ensures
        r == (a.deep_view() == b.deep_view()),
{
    let n = a.len();
    if n != b.len() {
        proof {
            assert(a.deep_view().len() == a@.len());
            assert(b.deep_view().len() == b@.len());
        }
        return false;
    }
    let mut i: usize = 0;
    while i < n
        invariant
            n == a@.len(),
            n == b@.len(),
            i <= n,
            forall|j: int| 0 <= j < i ==> a.deep_view()[j] == b.deep_view()[j],
        decreases n - i,
    {
        if !crate::strutil::str_eq(a[i].as_str(), b[i].as_str()) {
            proof {
                assert(a.deep_view()[i as int] != b.deep_view()[i as int]);
            }
            return false;
        }
        i = i + 1;
        proof {
            assert(a.deep_view()[i - 1] == b.deep_view()[i - 1]);
        }
    }
    proof {
        assert(a.deep_view() =~= b.deep_view());
    }
    true
}

/// A namespace stack rendered as a path prefix: every segment followed by
/// `::`.
pub open spec fn spec_render_prefix(ps: Seq<Seq<char>>) -> Seq<char>
    decreases ps.len(),
{
    if ps.len() == 0 {
        Seq::<char>::empty()
    } else {
        spec_render_prefix(ps.drop_last()) + ps.last() + seq![':'] + seq![':']
    }
}

/// Renders a namespace stack as a `a::b::` path prefix.
pub fn render_prefix(ps: &Vec<String>) -> (r: String)
    ensures
        r@ == spec_render_prefix(ps.deep_view()),
{
    let mut r = String::new();
    let mut i: usize = 0;
    proof {
        assert(r@ =~= spec_render_prefix(ps.deep_view().take(0)));
    }
    while i < ps.len()
        invariant
            i <= ps@.len(),
            ps.deep_view().len() == ps@.len(),
            r@ == spec_render_prefix(ps.deep_view().take(i as int)),
        decreases ps@.len() - i,
    {
        r.append(ps[i].as_str());
        push_char(&mut r, ':');
        push_char(&mut r, ':');
        i = i + 1;
        proof {
            let pv = ps.deep_view();
            assert(pv.take(i as int).drop_last() =~= pv.take(i - 1));
            assert(pv.take(i as int).last() == pv[i - 1]);
            assert(r@ =~= spec_render_prefix(pv.take(i as int)));
        }
    }
    proof {
        assert(ps.deep_view().take(ps@.len() as int) =~= ps.deep_view());
    }
    r
}

} // verus!
