use protobuf_build::{Error, GenOpt, WrapperGen};

const ITEM_SOURCE: &str = r#"
/// A record with one scalar, one optional string and one repeated string.
#[derive(Clone, PartialEq, ::prost::Message)]
pub struct Item {
    #[prost(int32, tag = "1")]
    pub id: i32,
    #[prost(string, optional, tag = "2")]
    pub name: ::core::option::Option<::prost::alloc::string::String>,
    #[prost(string, repeated, tag = "3")]
    pub tags: ::prost::alloc::vec::Vec<::prost::alloc::string::String>,
}
"#;

#[test]
fn end_to_end_scalar_optional_repeated() {
    let gen = WrapperGen::new(ITEM_SOURCE.to_string(), GenOpt::all());
    let out = gen.generate().unwrap();
    // id: copy getter, setter, reset-to-zero clear
    assert!(out.contains("#[inline] pub fn get_id(&self) -> i32 { self.id }\n"));
    assert!(out.contains("#[inline] pub fn set_id(&mut self, v: i32) { self.id = v; }\n"));
    assert!(out.contains("#[inline] pub fn clear_id(&mut self) { self.id = 0 }\n"));
    assert!(!out.contains("fn has_id"));
    assert!(!out.contains("fn mut_id"));
    assert!(!out.contains("fn take_id"));
    // name: presence test, empty default getter, unsetting clear, lazy mut,
    // take that leaves the field cleared
    assert!(out.contains("#[inline] pub fn has_name(&self) -> bool { self.name.is_some() }\n"));
    assert!(out.contains(
        "#[inline] pub fn get_name(&self) -> &str { match self.name.as_ref() { Some(v) => v, None => \"\", } }\n"
    ));
    assert!(out.contains(
        "#[inline] pub fn clear_name(&mut self) { self.name = ::std::option::Option::None }\n"
    ));
    assert!(out.contains(
        "#[inline] pub fn set_name(&mut self, v: :: prost :: alloc :: string :: String) { self.name = ::std::option::Option::Some(v); }\n"
    ));
    assert!(out.contains(
        "#[inline] pub fn mut_name(&mut self) -> &mut :: prost :: alloc :: string :: String { if self.name.is_none() { self.name = ::std::option::Option::Some(:: prost :: alloc :: string :: String::default()); } self.name.as_mut().unwrap() }\n"
    ));
    assert!(out.contains(
        "#[inline] pub fn take_name(&mut self) -> :: prost :: alloc :: string :: String { self.name.take().unwrap_or_else(::std::string::String::new) }\n"
    ));
    // tags: borrowed-view getter, container mut and take, emptying clear,
    // and neither a presence test nor a setter
    assert!(out.contains(
        "#[inline] pub fn get_tags(&self) -> &[:: prost :: alloc :: string :: String] { &self.tags }\n"
    ));
    assert!(out.contains(
        "#[inline] pub fn mut_tags(&mut self) -> &mut ::std::vec::Vec<:: prost :: alloc :: string :: String> { &mut self.tags }\n"
    ));
    assert!(out.contains(
        "#[inline] pub fn take_tags(&mut self) -> ::std::vec::Vec<:: prost :: alloc :: string :: String> { ::std::mem::replace(&mut self.tags, ::std::vec::Vec::new()) }\n"
    ));
    assert!(out.contains("#[inline] pub fn clear_tags(&mut self) { self.tags.clear(); }\n"));
    assert!(!out.contains("fn has_tags"));
    assert!(!out.contains("fn set_tags"));
    // struct-level boilerplate
    assert!(out.starts_with("// Generated file, please don't edit manually.\n\n"));
    assert!(out.contains("impl Item {\n"));
    assert!(out.contains("pub fn new_() -> Item { ::std::default::Default::default() }\n"));
    assert!(out.contains("impl ::protobuf::Clear for Item {\n"));
    assert!(out.contains("impl ::protobuf::Message for Item {\n"));
}

#[test]
fn rerun_on_unchanged_input_is_byte_identical() {
    let gen = WrapperGen::new(ITEM_SOURCE.to_string(), GenOpt::all());
    let first = gen.generate().unwrap();
    let second = gen.generate().unwrap();
    assert_eq!(first, second);
    let again = WrapperGen::new(ITEM_SOURCE.to_string(), GenOpt::all());
    assert_eq!(first, again.generate().unwrap());
}

#[test]
fn methods_appear_in_field_declaration_order() {
    let source = r#"
#[derive(Clone, PartialEq, ::prost::Message)]
pub struct Two {
    #[prost(int32, tag = "1")]
    pub first: i32,
    #[prost(int32, tag = "2")]
    pub second: i32,
}
"#;
    let out = WrapperGen::new(source.to_string(), GenOpt::all()).generate().unwrap();
    let a = out.find("fn get_first").unwrap();
    let b = out.find("fn get_second").unwrap();
    assert!(a < b);
}

#[test]
fn message_adapter_is_gated_by_its_flag() {
    let without = WrapperGen::new(ITEM_SOURCE.to_string(), GenOpt::no_msg()).generate().unwrap();
    assert!(!without.contains("impl ::protobuf::Message for"));
    assert!(!without.contains("impl ::protobuf::Clear for"));
    // the default-instance accessor then builds its own shared instance
    assert!(without.contains("::lazy_static::lazy_static!"));
    let with = WrapperGen::new(ITEM_SOURCE.to_string(), GenOpt::all()).generate().unwrap();
    assert!(with.contains(
        "#[inline] pub fn default_ref() -> &'static Self { ::protobuf::Message::default_instance() }\n"
    ));
}

#[test]
fn new_constructor_is_gated_by_its_flag() {
    let out = WrapperGen::new(ITEM_SOURCE.to_string(), GenOpt::accessor()).generate().unwrap();
    assert!(!out.contains("fn new_()"));
}

#[test]
fn enum_values_accessor_lists_variants_in_order() {
    let source = r#"
#[derive(Clone, Copy, Debug, PartialEq, Eq, Hash, PartialOrd, Ord, ::prost::Enumeration)]
#[repr(i32)]
pub enum State {
    Unknown = 0,
    Good = 1,
    Bad = 7,
}
"#;
    let out = WrapperGen::new(source.to_string(), GenOpt::all()).generate().unwrap();
    assert!(out.contains(
        "impl State {\npub fn values() -> &'static [Self] {\nstatic VALUES: &'static [State] = &[\nState::Unknown,\nState::Good,\nState::Bad,\n];\nVALUES\n}\n}\n"
    ));
}

#[test]
fn nested_modules_prefix_type_paths() {
    let source = r#"
pub mod cluster {
    #[derive(Clone, PartialEq, ::prost::Message)]
    pub struct Node {
        #[prost(uint64, tag = "1")]
        pub id: u64,
    }
    #[derive(Clone, Copy, Debug, PartialEq, Eq, Hash, PartialOrd, Ord, ::prost::Enumeration)]
    #[repr(i32)]
    pub enum State {
        Up = 0,
    }
}
"#;
    let out = WrapperGen::new(source.to_string(), GenOpt::all()).generate().unwrap();
    assert!(out.contains("impl cluster::Node {\n"));
    assert!(out.contains("impl ::protobuf::Message for cluster::Node {\n"));
    assert!(out.contains("impl cluster::State {\n"));
    assert!(out.contains("static VALUES: &'static [cluster::State] = &[\ncluster::State::Up,\n"));
}

#[test]
fn enumeration_field_uses_prefixed_type() {
    let source = r#"
pub mod cluster {
    #[derive(Clone, PartialEq, ::prost::Message)]
    pub struct Node {
        #[prost(enumeration = "State", tag = "1")]
        pub state: i32,
    }
}
"#;
    let out = WrapperGen::new(source.to_string(), GenOpt::all()).generate().unwrap();
    assert!(out.contains(
        "#[inline] pub fn get_state(&self) -> cluster::State { match cluster :: State::from_i32(self.state) { Some(e) => e, None => panic!(\"Unknown enum variant: {}\", self.state), } }\n"
    ));
    assert!(out.contains(
        "#[inline] pub fn set_state(&mut self, v: cluster::State) { self.state = v as i32; }\n"
    ));
}

#[test]
fn oneof_fields_are_skipped() {
    let source = r#"
#[derive(Clone, PartialEq, ::prost::Message)]
pub struct Holder {
    #[prost(oneof = "payload", tags = "1, 2")]
    pub payload: ::core::option::Option<Payload>,
}
"#;
    let out = WrapperGen::new(source.to_string(), GenOpt::all()).generate().unwrap();
    assert!(!out.contains("fn get_payload"));
    assert!(!out.contains("fn set_payload"));
    assert!(out.contains("impl Holder {\n"));
}

#[test]
fn unmarked_types_are_ignored() {
    let source = r#"
#[derive(Clone, PartialEq)]
pub struct Plain {
    pub id: i32,
}
pub enum Bare {
    A,
}
"#;
    let out = WrapperGen::new(source.to_string(), GenOpt::all()).generate().unwrap();
    assert_eq!(out, "// Generated file, please don't edit manually.\n\n");
}

#[test]
fn unknown_field_kind_is_fatal() {
    let source = r#"
#[derive(Clone, PartialEq, ::prost::Message)]
pub struct Broken {
    #[prost(tag = "1")]
    pub field_value: i32,
}
"#;
    let r = WrapperGen::new(source.to_string(), GenOpt::all()).generate();
    assert_eq!(r, Err(Error::UnknownFieldKind));
}

#[test]
fn field_without_annotations_is_fatal() {
    let source = r#"
#[derive(Clone, PartialEq, ::prost::Message)]
pub struct Broken {
    pub field_value: i32,
}
"#;
    let r = WrapperGen::new(source.to_string(), GenOpt::all()).generate();
    assert_eq!(r, Err(Error::UnknownFieldKind));
}

#[test]
fn empty_input_yields_header_only() {
    let out = WrapperGen::new(String::new(), GenOpt::all()).generate().unwrap();
    assert_eq!(out, "// Generated file, please don't edit manually.\n\n");
}

#[test]
fn unterminated_literal_is_fatal() {
    let r = WrapperGen::new("const X: &str = \"abc".to_string(), GenOpt::all()).generate();
    assert_eq!(r, Err(Error::UnparsableSource));
}

#[test]
fn unparsable_source_is_fatal() {
    let r = WrapperGen::new("pub struct {".to_string(), GenOpt::all()).generate();
    assert_eq!(r, Err(Error::UnparsableSource));
    let r2 = WrapperGen::new("pub mod broken {".to_string(), GenOpt::all()).generate();
    assert_eq!(r2, Err(Error::UnparsableSource));
}

#[test]
fn optional_boxed_message_accessors() {
    let source = r#"
#[derive(Clone, PartialEq, ::prost::Message)]
pub struct Tree {
    #[prost(message, optional, boxed, tag = "1")]
    pub inner: ::core::option::Option<::prost::alloc::boxed::Box<Node>>,
}
"#;
    let out = WrapperGen::new(source.to_string(), GenOpt::all()).generate().unwrap();
    // the getter borrows the unboxed value, defaulting to the shared instance
    assert!(out.contains(
        "#[inline] pub fn get_inner(&self) -> &Node { match self.inner.as_ref() { Some(v) => v, None => Node::default_ref(), } }\n"
    ));
    // the mutable getter fills absent storage through a turbofish path
    assert!(out.contains(
        "#[inline] pub fn mut_inner(&mut self) -> &mut :: prost :: alloc :: boxed :: Box < Node > { if self.inner.is_none() { self.inner = ::std::option::Option::Some(:: prost :: alloc :: boxed :: Box :: < Node >::default()); } self.inner.as_mut().unwrap() }\n"
    ));
    assert!(out.contains(
        "#[inline] pub fn take_inner(&mut self) -> :: prost :: alloc :: boxed :: Box < Node > { self.inner.take().unwrap_or_else(:: prost :: alloc :: boxed :: Box :: < Node >::default) }\n"
    ));
    assert!(out.contains("#[inline] pub fn has_inner(&self) -> bool { self.inner.is_some() }\n"));
}

#[test]
fn empty_flags_emit_only_the_default_accessor() {
    let source = r#"
#[derive(Clone, PartialEq, ::prost::Message)]
pub struct Small {
    #[prost(bool, tag = "1")]
    pub done: bool,
}
"#;
    let out = WrapperGen::new(source.to_string(), GenOpt::empty()).generate().unwrap();
    assert_eq!(
        out,
        "// Generated file, please don't edit manually.\n\n\
         impl Small {\n\
         #[inline] pub fn default_ref() -> &'static Self { ::lazy_static::lazy_static! { static ref INSTANCE: Small = Small::default(); } &*INSTANCE }\n\
         }\n"
    );
}

#[test]
fn map_fields_have_view_clear_mut_take_but_no_set() {
    let source = r#"
#[derive(Clone, PartialEq, ::prost::Message)]
pub struct Holder {
    #[prost(map = "string, int32", tag = "1")]
    pub counts: ::std::collections::HashMap<::prost::alloc::string::String, i32>,
}
"#;
    let out = WrapperGen::new(source.to_string(), GenOpt::all()).generate().unwrap();
    assert!(out.contains("#[inline] pub fn clear_counts(&mut self) { self.counts.clear(); }\n"));
    assert!(out.contains(
        "#[inline] pub fn take_counts(&mut self) -> :: std :: collections :: HashMap < :: prost :: alloc :: string :: String , i32 > { ::std::mem::replace(&mut self.counts, ::std::default::Default::default()) }\n"
    ));
    assert!(out.contains("fn get_counts"));
    assert!(out.contains("fn mut_counts"));
    assert!(!out.contains("fn set_counts"));
    assert!(!out.contains("fn has_counts"));
}

#[test]
fn loader_builds_the_structural_model() {
    let unit = protobuf_build::wrapper::parse_source(ITEM_SOURCE).unwrap();
    assert_eq!(unit.decls.len(), 1);
    match &unit.decls[0] {
        protobuf_build::model::Decl::Struct(s) => {
            assert!(s.prefix.is_empty());
            assert_eq!(s.name, "Item");
            assert_eq!(s.fields.len(), 3);
            assert_eq!(s.fields[0].name, "id");
            assert_eq!(s.fields[1].name, "name");
            assert_eq!(s.fields[2].name, "tags");
            assert_eq!(s.fields[0].ty.tokens, vec!["i32".to_string()]);
        }
        _ => panic!("expected a struct declaration"),
    }
}

#[test]
fn implicit_discriminants_continue_from_the_last_explicit_one() {
    let source = r#"
#[derive(Clone, Copy, Debug, PartialEq, Eq, Hash, PartialOrd, Ord, ::prost::Enumeration)]
#[repr(i32)]
pub enum Mixed {
    A = 3,
    B,
    C = 10,
    D,
}
"#;
    let unit = protobuf_build::wrapper::parse_source(source).unwrap();
    match &unit.decls[0] {
        protobuf_build::model::Decl::Enum(e) => {
            let numbers: Vec<i32> = e.variants.iter().map(|v| v.number).collect();
            assert_eq!(numbers, vec![3, 4, 10, 11]);
        }
        _ => panic!("expected an enum declaration"),
    }
}

#[test]
fn loader_tracks_namespace_stacks() {
    let source = r#"
pub mod outer {
    pub mod inner {
        #[derive(Clone, PartialEq, ::prost::Message)]
        pub struct Leaf {
            #[prost(bool, tag = "1")]
            pub ok: bool,
        }
    }
}
"#;
    let unit = protobuf_build::wrapper::parse_source(source).unwrap();
    assert_eq!(unit.decls.len(), 1);
    match &unit.decls[0] {
        protobuf_build::model::Decl::Struct(s) => {
            assert_eq!(s.prefix, vec!["outer".to_string(), "inner".to_string()]);
            assert_eq!(s.name, "Leaf");
        }
        _ => panic!("expected a struct declaration"),
    }
}

#[test]
fn other_items_are_skipped() {
    let source = r#"
use std::fmt;
impl Something {
    pub fn helper(&self) -> i32 { { 1 } }
}
#[derive(Clone, PartialEq, ::prost::Message)]
pub struct Item {
    #[prost(bool, tag = "1")]
    pub done: bool,
}
"#;
    let out = WrapperGen::new(source.to_string(), GenOpt::all()).generate().unwrap();
    assert!(out.contains("#[inline] pub fn get_done(&self) -> bool { self.done }\n"));
}
