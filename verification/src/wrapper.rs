//! The code emitter and the per-file generation pass.
//!
//! For each qualifying struct declaration an `impl` block is emitted with a
//! constructor (when requested), a default-instance accessor and the
//! per-field accessor methods in field declaration order; for each
//! qualifying enum declaration an accessor returning the ordered variant
//! list.  Output is deterministic: the same model and flags always render
//! byte-identical text.

use vstd::prelude::*;

use crate::classify::{spec_classify, FieldKind};
use crate::error::Error;
use crate::methods::{spec_field_methods, spec_write_methods};
use crate::model::{render_prefix, spec_render_prefix, Attr, AttrV, Decl, DeclV, EnumDecl,
    EnumDeclV, FieldDeclV, SourceUnit, StructDecl, StructDeclV, VariantV};
use crate::strutil::{spec_contains, str_contains, string_eq_str};
use crate::GenOpt;

verus! {

/// Whether the attributes carry the marker deriving message behavior.
pub open spec fn spec_is_message(attrs: Seq<AttrV>) -> bool {
    exists|i: int|
        0 <= i < attrs.len() && attrs[i].path == "derive"@ && #[trigger] spec_contains(
            attrs[i].tokens,
            ":: Message"@,
        )
}

/// Whether the attributes carry the marker deriving enumeration behavior.
pub open spec fn spec_is_enum(attrs: Seq<AttrV>) -> bool {
    exists|i: int|
        0 <= i < attrs.len() && attrs[i].path == "derive"@ && #[trigger] spec_contains(
            attrs[i].tokens,
            "Enumeration"@,
        )
}

/// Whether a declaration carries the message marker: a `derive` whose
/// tokens name a path ending in `Message`.
pub fn is_message(attrs: &Vec<Attr>) -> (r: bool)
    ensures
        r == spec_is_message(attrs.deep_view()),
{
    let ghost av = attrs.deep_view();
    let mut i: usize = 0;
    while i < attrs.len()
        invariant
            av == attrs.deep_view(),
            av.len() == attrs@.len(),
            i <= attrs@.len(),
            forall|j: int|
                0 <= j < i ==> !(av[j].path == "derive"@ && #[trigger] spec_contains(
                    av[j].tokens,
                    ":: Message"@,
                )),
        decreases attrs@.len() - i,
    {
        let a = &attrs[i];
        proof {
            assert(a.deep_view() == av[i as int]);
        }
        if string_eq_str(&a.path, "derive") && str_contains(a.tokens.as_str(), ":: Message") {
            proof {
                assert(av[i as int].path == "derive"@ && spec_contains(
                    av[i as int].tokens,
                    ":: Message"@,
                ));
            }
            return true;
        }
        i = i + 1;
    }
    proof {
        if spec_is_message(av) {
            let j = choose|j: int|
                0 <= j < av.len() && av[j].path == "derive"@ && #[trigger] spec_contains(
                    av[j].tokens,
                    ":: Message"@,
                );
            assert(false);
        }
    }
    false
}

/// Whether a declaration carries the enumeration marker: a `derive` whose
/// tokens name `Enumeration`.
pub fn is_enum(attrs: &Vec<Attr>) -> (r: bool)
    ensures
        r == spec_is_enum(attrs.deep_view()),
{
    let ghost av = attrs.deep_view();
    let mut i: usize = 0;
    while i < attrs.len()
        invariant
            av == attrs.deep_view(),
            av.len() == attrs@.len(),
            i <= attrs@.len(),
            forall|j: int|
                0 <= j < i ==> !(av[j].path == "derive"@ && #[trigger] spec_contains(
                    av[j].tokens,
                    "Enumeration"@,
                )),
        decreases attrs@.len() - i,
    {
        let a = &attrs[i];
        proof {
            assert(a.deep_view() == av[i as int]);
        }
        if string_eq_str(&a.path, "derive") && str_contains(a.tokens.as_str(), "Enumeration") {
            proof {
                assert(av[i as int].path == "derive"@ && spec_contains(
                    av[i as int].tokens,
                    "Enumeration"@,
                ));
            }
            return true;
        }
        i = i + 1;
    }
    proof {
        if spec_is_enum(av) {
            let j = choose|j: int|
                0 <= j < av.len() && av[j].path == "derive"@ && #[trigger] spec_contains(
                    av[j].tokens,
                    "Enumeration"@,
                );
            assert(false);
        }
    }
    false
}

/// The `new_` constructor text.
pub open spec fn spec_generate_new(pn: Seq<char>) -> Seq<char> {
    "pub fn new_() -> "@ + pn + " { ::std::default::Default::default() }\n"@
}

/// Emits the `new_` constructor of a struct.
pub fn generate_new(pn: &String) -> (r: String)
    ensures
        r@ == spec_generate_new(pn@),
{
    let mut s = String::from_str("pub fn new_() -> ");
    s.append(pn.as_str());
    s.append(" { ::std::default::Default::default() }\n");
    s
}

/// The default-instance accessor text.
pub open spec fn spec_generate_default_ref(pn: Seq<char>, opts: GenOpt) -> Seq<char> {
    if opts.message {
        "#[inline] pub fn default_ref() -> &'static Self { ::protobuf::Message::default_instance() }\n"@
    } else {
        "#[inline] pub fn default_ref() -> &'static Self { ::lazy_static::lazy_static! { static ref INSTANCE: "@
            + pn + " = "@ + pn + "::default(); } &*INSTANCE }\n"@
    }
}

/// Emits the default-instance accessor: through the legacy message
/// interface when the adapter is requested, otherwise through a
/// once-initialized shared instance.
pub fn generate_default_ref(pn: &String, opts: GenOpt) -> (r: String)
    ensures
        r@ == spec_generate_default_ref(pn@, opts),
{
    if opts.message {
        String::from_str(
            "#[inline] pub fn default_ref() -> &'static Self { ::protobuf::Message::default_instance() }\n",
        )
    } else {
        let mut s = String::from_str(
            "#[inline] pub fn default_ref() -> &'static Self { ::lazy_static::lazy_static! { static ref INSTANCE: ",
        );
        s.append(pn.as_str());
        s.append(" = ");
        s.append(pn.as_str());
        s.append("::default(); } &*INSTANCE }\n");
        s
    }
}

/// The legacy message-interface adapter text: every operation forwards to
/// the already-generated minimal implementation; wire logic is never
/// reimplemented here.
pub open spec fn spec_generate_message_trait(pn: Seq<char>) -> Seq<char> {
    "impl ::protobuf::Clear for "@ + pn
        + " {\nfn clear(&mut self) { ::prost::Message::clear(self); }\n}\nimpl ::protobuf::Message for "@
        + pn
        + " {\nfn compute_size(&self) -> u32 { ::prost::Message::encoded_len(self) as u32 }\nfn get_cached_size(&self) -> u32 { ::prost::Message::encoded_len(self) as u32 }\nfn as_any(&self) -> &dyn ::std::any::Any { self as &dyn ::std::any::Any }\nfn descriptor(&self) -> &'static ::protobuf::reflect::MessageDescriptor { Self::descriptor_static() }\nfn new() -> Self { Self::default() }\nfn default_instance() -> &'static "@
        + pn + " { ::lazy_static::lazy_static! { static ref INSTANCE: "@ + pn + " = "@ + pn
        + "::default(); } &*INSTANCE }\nfn is_initialized(&self) -> bool { true }\nfn write_to_with_cached_sizes(&self, _os: &mut ::protobuf::CodedOutputStream) -> ::protobuf::ProtobufResult<()> { panic!(\"unsupported call\"); }\nfn merge_from(&mut self, _is: &mut ::protobuf::CodedInputStream) -> ::protobuf::ProtobufResult<()> { panic!(\"unsupported call\"); }\nfn get_unknown_fields(&self) -> &::protobuf::UnknownFields { panic!(\"unsupported call\"); }\nfn mut_unknown_fields(&mut self) -> &mut ::protobuf::UnknownFields { panic!(\"unsupported call\"); }\nfn write_to_bytes(&self) -> ::protobuf::ProtobufResult<Vec<u8>> { let mut buf = Vec::new(); if ::prost::Message::encode(self, &mut buf).is_err() { return Err(::protobuf::ProtobufError::WireError(::protobuf::error::WireError::Other)); } Ok(buf) }\nfn merge_from_bytes(&mut self, bytes: &[u8]) -> ::protobuf::ProtobufResult<()> { if ::prost::Message::merge(self, bytes).is_err() { return Err(::protobuf::ProtobufError::WireError(::protobuf::error::WireError::Other)); } Ok(()) }\n}\n"@
}

/// Emits the legacy message-interface adapter for one struct.
pub fn generate_message_trait(pn: &String) -> (r: String)
    ensures
        r@ == spec_generate_message_trait(pn@),
{
    let mut s = String::from_str("impl ::protobuf::Clear for ");
    s.append(pn.as_str());
    s.append(
        " {\nfn clear(&mut self) { ::prost::Message::clear(self); }\n}\nimpl ::protobuf::Message for ",
    );
    s.append(pn.as_str());
    s.append(
        " {\nfn compute_size(&self) -> u32 { ::prost::Message::encoded_len(self) as u32 }\nfn get_cached_size(&self) -> u32 { ::prost::Message::encoded_len(self) as u32 }\nfn as_any(&self) -> &dyn ::std::any::Any { self as &dyn ::std::any::Any }\nfn descriptor(&self) -> &'static ::protobuf::reflect::MessageDescriptor { Self::descriptor_static() }\nfn new() -> Self { Self::default() }\nfn default_instance() -> &'static ",
    );
    s.append(pn.as_str());
    s.append(" { ::lazy_static::lazy_static! { static ref INSTANCE: ");
    s.append(pn.as_str());
    s.append(" = ");
    s.append(pn.as_str());
    s.append(
        "::default(); } &*INSTANCE }\nfn is_initialized(&self) -> bool { true }\nfn write_to_with_cached_sizes(&self, _os: &mut ::protobuf::CodedOutputStream) -> ::protobuf::ProtobufResult<()> { panic!(\"unsupported call\"); }\nfn merge_from(&mut self, _is: &mut ::protobuf::CodedInputStream) -> ::protobuf::ProtobufResult<()> { panic!(\"unsupported call\"); }\nfn get_unknown_fields(&self) -> &::protobuf::UnknownFields { panic!(\"unsupported call\"); }\nfn mut_unknown_fields(&mut self) -> &mut ::protobuf::UnknownFields { panic!(\"unsupported call\"); }\nfn write_to_bytes(&self) -> ::protobuf::ProtobufResult<Vec<u8>> { let mut buf = Vec::new(); if ::prost::Message::encode(self, &mut buf).is_err() { return Err(::protobuf::ProtobufError::WireError(::protobuf::error::WireError::Other)); } Ok(buf) }\nfn merge_from_bytes(&mut self, bytes: &[u8]) -> ::protobuf::ProtobufResult<()> { if ::prost::Message::merge(self, bytes).is_err() { return Err(::protobuf::ProtobufError::WireError(::protobuf::error::WireError::Other)); } Ok(()) }\n}\n",
    );
    s
}

/// The `values()` lines of an enum: one line per variant, in declaration
/// order.
pub open spec fn spec_variant_lines(pn: Seq<char>, vars: Seq<VariantV>) -> Seq<char>
    decreases vars.len(),
{
    if vars.len() == 0 {
        Seq::<char>::empty()
    } else {
        spec_variant_lines(pn, vars.drop_last()) + pn + "::"@ + vars.last().name + ",\n"@
    }
}

/// The full text of an enum's `values()` accessor.
pub open spec fn spec_generate_enum(ev: EnumDeclV) -> Seq<char> {
    let pn = spec_render_prefix(ev.prefix) + ev.name;
    "impl "@ + pn + " {\npub fn values() -> &'static [Self] {\nstatic VALUES: &'static ["@ + pn
        + "] = &[\n"@ + spec_variant_lines(pn, ev.variants) + "];\nVALUES\n}\n}\n"@
}

/// Emits the accessor returning the statically ordered list of all
/// variants of one enum declaration.
pub fn generate_enum(item: &EnumDecl) -> (r: String)
    ensures
        r@ == spec_generate_enum(item.deep_view()),
{
    let prefix_str = render_prefix(&item.prefix);
    let mut pn = prefix_str;
    pn.append(item.name.as_str());
    let ghost pnv = pn@;
    let mut s = String::from_str("impl ");
    s.append(pn.as_str());
    s.append(" {\npub fn values() -> &'static [Self] {\nstatic VALUES: &'static [");
    s.append(pn.as_str());
    s.append("] = &[\n");
    let ghost vv = item.variants.deep_view();
    let ghost head = s@;
    let mut i: usize = 0;
    proof {
        assert(head + spec_variant_lines(pnv, vv.take(0)) =~= head);
    }
    while i < item.variants.len()
        invariant
            vv == item.variants.deep_view(),
            vv.len() == item.variants@.len(),
            i <= item.variants@.len(),
            pnv == pn@,
            s@ == head + spec_variant_lines(pnv, vv.take(i as int)),
        decreases item.variants@.len() - i,
    {
        s.append(pn.as_str());
        s.append("::");
        s.append(item.variants[i].name.as_str());
        s.append(",\n");
        i = i + 1;
        proof {
            assert(vv.take(i as int).drop_last() =~= vv.take(i - 1));
            assert(vv.take(i as int).last() == vv[i - 1]);
            assert(item.variants[i - 1].deep_view() == vv[i - 1]);
            assert(s@ =~= head + spec_variant_lines(pnv, vv.take(i as int)));
        }
    }
    s.append("];\nVALUES\n}\n}\n");
    proof {
        assert(vv.take(vv.len() as int) =~= vv);
        assert(s@ =~= spec_generate_enum(item.deep_view()));
    }
    s
}

/// The accessor text of one field, or the fatal error its classification
/// raises.  A `oneof` field contributes nothing.
pub open spec fn spec_field_text(f: FieldDeclV, prefix: Seq<Seq<char>>, opts: GenOpt) -> Result<
    Seq<char>,
    Error,
> {
    match spec_classify(f.attrs, prefix) {
        Err(e) => Err(e),
        Ok(k) => match spec_field_methods(k, f.ty, f.name) {
            None => Ok(Seq::<char>::empty()),
            Some(m) => Ok(spec_write_methods(m, opts)),
        },
    }
}

/// The accessor text of a field list, in declaration order; the first
/// fatal error aborts the whole unit.
pub open spec fn spec_fields_text(
    fields: Seq<FieldDeclV>,
    prefix: Seq<Seq<char>>,
    opts: GenOpt,
) -> Result<Seq<char>, Error>
    decreases fields.len(),
{
    if fields.len() == 0 {
        Ok(Seq::<char>::empty())
    } else {
        match spec_fields_text(fields.drop_last(), prefix, opts) {
            Err(e) => Err(e),
            Ok(acc) => match spec_field_text(fields.last(), prefix, opts) {
                Err(e) => Err(e),
                Ok(t) => Ok(acc + t),
            },
        }
    }
}

/// Once a field fails, the whole list fails with that error.
proof fn lemma_fields_text_err(
    fields: Seq<FieldDeclV>,
    prefix: Seq<Seq<char>>,
    opts: GenOpt,
    i: int,
    e: Error,
)
    requires
        0 <= i < fields.len(),
        spec_fields_text(fields.take(i), prefix, opts) is Ok,
        spec_field_text(fields[i], prefix, opts) == Err::<Seq<char>, Error>(e),
    ensures
        spec_fields_text(fields, prefix, opts) == Err::<Seq<char>, Error>(e),
    decreases fields.len(),
{
    if i == fields.len() - 1 {
        assert(fields.drop_last() =~= fields.take(i));
        assert(fields.last() == fields[i]);
    } else {
        assert(fields.drop_last().take(i) =~= fields.take(i));
        assert(fields.drop_last()[i] == fields[i]);
        lemma_fields_text_err(fields.drop_last(), prefix, opts, i, e);
    }
}

/// The full text of one qualifying struct declaration: the `impl` header,
/// the constructor when requested, the default-instance accessor, the
/// per-field methods in declaration order, and the legacy adapter when
/// requested.
pub open spec fn spec_generate_struct(sv: StructDeclV, opts: GenOpt) -> Result<Seq<char>, Error> {
    let pn = spec_render_prefix(sv.prefix) + sv.name;
    match spec_fields_text(sv.fields, sv.prefix, opts) {
        Err(e) => Err(e),
        Ok(body) => Ok(
            "impl "@ + pn + " {\n"@ + (if opts.new_fn {
                spec_generate_new(pn)
            } else {
                Seq::<char>::empty()
            }) + spec_generate_default_ref(pn, opts) + body + "}\n"@ + (if opts.message {
                spec_generate_message_trait(pn)
            } else {
                Seq::<char>::empty()
            }),
        ),
    }
}

/// Emits the full adapter text of one qualifying struct declaration.
pub fn generate_struct(item: &StructDecl, opts: GenOpt) -> (r: Result<String, Error>)
    ensures
        (match r {
            Ok(s) => spec_generate_struct(item.deep_view(), opts) == Ok::<Seq<char>, Error>(s@),
            Err(e) => spec_generate_struct(item.deep_view(), opts) == Err::<Seq<char>, Error>(e),
        }),
{
    let ghost sv = item.deep_view();
    let prefix_str = render_prefix(&item.prefix);
    let mut pn = prefix_str;
    pn.append(item.name.as_str());
    let ghost pnv = pn@;
    let mut body = String::new();
    let ghost fv = item.fields.deep_view();
    let mut i: usize = 0;
    proof {
        assert(spec_fields_text(fv.take(0), sv.prefix, opts) == Ok::<Seq<char>, Error>(body@))
            by {
            assert(fv.take(0).len() == 0);
            assert(body@ =~= Seq::<char>::empty());
        }
    }
    while i < item.fields.len()
        invariant
            sv == item.deep_view(),
            fv == item.fields.deep_view(),
            fv.len() == item.fields@.len(),
            i <= item.fields@.len(),
            spec_fields_text(fv.take(i as int), sv.prefix, opts) == Ok::<Seq<char>, Error>(body@),
        decreases item.fields@.len() - i,
    {
        let f = &item.fields[i];
        proof {
            assert(f.deep_view() == fv[i as int]);
        }
        let kind_res = FieldKind::from_attrs(&f.attrs, &item.prefix);
        match kind_res {
            Err(e) => {
                proof {
                    lemma_fields_text_err(fv, sv.prefix, opts, i as int, e);
                }
                return Err(e);
            },
            Ok(kind) => {
                let ms = kind.methods(&f.ty, &f.name);
                proof {
                    assert(fv.take(i as int + 1).drop_last() =~= fv.take(i as int));
                    assert(fv.take(i as int + 1).last() == fv[i as int]);
                }
                match ms {
                    None => {
                        proof {
                            assert(body@ + Seq::<char>::empty() =~= body@);
                        }
                    },
                    Some(m) => {
                        let t = m.write_methods(opts);
                        body.append(t.as_str());
                    },
                }
            },
        }
        i = i + 1;
    }
    proof {
        assert(fv.take(fv.len() as int) =~= fv);
    }
    let mut out = String::from_str("impl ");
    out.append(pn.as_str());
    out.append(" {\n");
    if opts.new_fn {
        let t = generate_new(&pn);
        out.append(t.as_str());
    }
    let t = generate_default_ref(&pn, opts);
    out.append(t.as_str());
    out.append(body.as_str());
    out.append("}\n");
    if opts.message {
        let t = generate_message_trait(&pn);
        out.append(t.as_str());
    }
    proof {
        if !opts.new_fn {
            assert("impl "@ + pnv + " {\n"@ + Seq::<char>::empty() =~= "impl "@ + pnv + " {\n"@);
        }
        assert(out@ =~= spec_generate_struct(sv, opts)->Ok_0);
    }
    Ok(out)
}

/// The text one declaration contributes: structs and enums carrying the
/// recognized markers are processed, everything else is skipped.
pub open spec fn spec_decl_text(d: DeclV, opts: GenOpt) -> Result<Seq<char>, Error> {
    match d {
        DeclV::Struct(s) => if spec_is_message(s.attrs) {
            spec_generate_struct(s, opts)
        } else {
            Ok(Seq::<char>::empty())
        },
        DeclV::Enum(e) => if spec_is_enum(e.attrs) {
            Ok(spec_generate_enum(e))
        } else {
            Ok(Seq::<char>::empty())
        },
    }
}

/// The text of a whole unit's declarations, in document order; the first
/// fatal error aborts the run.
pub open spec fn spec_items_text(ds: Seq<DeclV>, opts: GenOpt) -> Result<Seq<char>, Error>
    decreases ds.len(),
{
    if ds.len() == 0 {
        Ok(Seq::<char>::empty())
    } else {
        match spec_items_text(ds.drop_last(), opts) {
            Err(e) => Err(e),
            Ok(acc) => match spec_decl_text(ds.last(), opts) {
                Err(e) => Err(e),
                Ok(t) => Ok(acc + t),
            },
        }
    }
}

/// Once a declaration fails, the whole unit fails with that error.
proof fn lemma_items_text_err(ds: Seq<DeclV>, opts: GenOpt, i: int, e: Error)
    requires
        0 <= i < ds.len(),
        spec_items_text(ds.take(i), opts) is Ok,
        spec_decl_text(ds[i], opts) == Err::<Seq<char>, Error>(e),
    ensures
        spec_items_text(ds, opts) == Err::<Seq<char>, Error>(e),
    decreases ds.len(),
{
    if i == ds.len() - 1 {
        assert(ds.drop_last() =~= ds.take(i));
        assert(ds.last() == ds[i]);
    } else {
        assert(ds.drop_last().take(i) =~= ds.take(i));
        assert(ds.drop_last()[i] == ds[i]);
        lemma_items_text_err(ds.drop_last(), opts, i, e);
    }
}

/// Emits the adapter text of every qualifying declaration, in document
/// order.
pub fn generate_from_items(decls: &Vec<Decl>, opts: GenOpt) -> (r: Result<String, Error>)
    ensures
        (match r {
            Ok(s) => spec_items_text(decls.deep_view(), opts) == Ok::<Seq<char>, Error>(s@),
            Err(e) => spec_items_text(decls.deep_view(), opts) == Err::<Seq<char>, Error>(e),
        }),
{
    let ghost dv = decls.deep_view();
    let mut out = String::new();
    let mut i: usize = 0;
    proof {
        assert(spec_items_text(dv.take(0), opts) == Ok::<Seq<char>, Error>(out@)) by {
            assert(dv.take(0).len() == 0);
            assert(out@ =~= Seq::<char>::empty());
        }
    }
    while i < decls.len()
        invariant
            dv == decls.deep_view(),
            dv.len() == decls@.len(),
            i <= decls@.len(),
            spec_items_text(dv.take(i as int), opts) == Ok::<Seq<char>, Error>(out@),
        decreases decls@.len() - i,
    {
        let d = &decls[i];
        proof {
            assert(d.deep_view() == dv[i as int]);
            assert(dv.take(i as int + 1).drop_last() =~= dv.take(i as int));
            assert(dv.take(i as int + 1).last() == dv[i as int]);
        }
        match d {
            Decl::Struct(sd) => {
                if is_message(&sd.attrs) {
                    let res = generate_struct(sd, opts);
                    match res {
                        Ok(t) => {
                            out.append(t.as_str());
                        },
                        Err(e) => {
                            proof {
                                lemma_items_text_err(dv, opts, i as int, e);
                            }
                            return Err(e);
                        },
                    }
                } else {
                    proof {
                        assert(out@ + Seq::<char>::empty() =~= out@);
                    }
                }
            },
            Decl::Enum(ed) => {
                if is_enum(&ed.attrs) {
                    let t = generate_enum(ed);
                    out.append(t.as_str());
                } else {
                    proof {
                        assert(out@ + Seq::<char>::empty() =~= out@);
                    }
                }
            },
        }
        i = i + 1;
    }
    proof {
        assert(dv.take(dv.len() as int) =~= dv);
    }
    Ok(out)
}

/// The fixed header of every generated file.
pub open spec fn spec_header() -> Seq<char> {
    "// Generated file, please don't edit manually.\n\n"@
}

/// Generation is a function of the input text and the flags alone: two
/// runs on the same text and flags yield byte-identical output, so
/// re-running on unchanged input never produces churn.
pub proof fn lemma_generation_deterministic(
    out1: Seq<char>,
    out2: Seq<char>,
    text: Seq<char>,
    opts: GenOpt,
)
    requires
        spec_generate(text, opts) == Ok::<Seq<char>, Error>(out1),
        spec_generate(text, opts) == Ok::<Seq<char>, Error>(out2),
    ensures
        out1 == out2,
{
}

/// One generation pass over one input file.
pub struct WrapperGen {
    /// The raw text of the input file.
    pub input: String,
    /// The capability flags of this pass.
    pub gen_opt: GenOpt,
}

impl WrapperGen {
    /// Starts a pass over the given input text.
    pub fn new(input: String, gen_opt: GenOpt) -> (r: WrapperGen)
        ensures
            r.input == input,
            r.gen_opt == gen_opt,
    {
        WrapperGen { input, gen_opt }
    }

    /// Parses the input and emits the adapter source text: the fixed header
    /// followed by the text of every qualifying declaration.  A file that
    /// cannot be parsed, a field without a recognized annotation, or an
    /// unrecognized annotation combination is a fatal error.
    pub fn generate(&self) -> (r: Result<String, Error>)
        ensures
            gen_result_view(r) == spec_generate(self.input@, self.gen_opt),
    {
        let unit = match crate::loader::parse_source(self.input.as_str()) {
            Ok(u) => u,
            Err(e) => {
                return Err(e);
            },
        };
        let text = match generate_from_items(&unit.decls, self.gen_opt) {
            Ok(t) => t,
            Err(e) => {
                return Err(e);
            },
        };
        let mut out = String::from_str("// Generated file, please don't edit manually.\n\n");
        out.append(text.as_str());
        Ok(out)
    }
}

/// The full generation pass as a function of the input text and the
/// flags: the parsed model's adapter text under the fixed header, or the
/// first fatal error — an unparsable input, a field without a recognized
/// annotation, or an unrecognized annotation combination.
pub open spec fn spec_generate(text: Seq<char>, opts: GenOpt) -> Result<Seq<char>, Error> {
    match crate::loader::spec_parse(text) {
        Err(e) => Err(e),
        Ok(ds) => match spec_items_text(ds, opts) {
            Err(e) => Err(e),
            Ok(t) => Ok(spec_header() + t),
        },
    }
}

/// The ghost form of a generation result.
pub open spec fn gen_result_view(r: Result<String, Error>) -> Result<Seq<char>, Error> {
    match r {
        Ok(s) => Ok(s@),
        Err(e) => Err(e),
    }
}

/// Parses one generated file into its structural model.  The model is the
/// input of the emission pass and what the adapter text is a function of.
pub fn parse_source(text: &str) -> (r: Result<SourceUnit, Error>)
    ensures
        crate::loader::parse_result_view(r) == crate::loader::spec_parse(text@),
{
    crate::loader::parse_source(text)
}

} // verus!
