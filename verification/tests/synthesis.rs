use protobuf_build::classify::FieldKind;
use protobuf_build::methods::Category;
use protobuf_build::model::TypeExpr;
use protobuf_build::GenOpt;

fn toks(ts: &[&str]) -> Vec<String> {
    ts.iter().map(|t| t.to_string()).collect()
}

fn ty(ts: &[&str]) -> TypeExpr {
    TypeExpr { tokens: toks(ts) }
}

fn only_has() -> GenOpt {
    let mut o = GenOpt::empty();
    o.has = true;
    o
}

#[test]
fn optional_message_with_has_flag_alone_emits_exactly_has() {
    let kind = FieldKind::Optional(Box::new(FieldKind::Message));
    let m = kind
        .methods(&ty(&["Option", "<", "Foo", ">"]), &"foo".to_string())
        .unwrap();
    let set = m.method_set(only_has());
    assert_eq!(set.len(), 1);
    assert_eq!(set[0].category, Category::Has);
    assert_eq!(set[0].name, "has_foo");
    // present means set: the test reads the stored presence marker
    assert_eq!(
        set[0].text,
        "#[inline] pub fn has_foo(&self) -> bool { self.foo.is_some() }\n"
    );
}

#[test]
fn oneof_fields_are_excluded_entirely() {
    let kind = FieldKind::OneOf("payload".to_string());
    assert!(kind.methods(&ty(&["i32"]), &"payload".to_string()).is_none());
}

#[test]
fn optional_string_accessor_semantics() {
    // field `name: Optional(String)`
    let kind = FieldKind::Optional(Box::new(FieldKind::Str));
    let m = kind
        .methods(&ty(&["Option", "<", "String", ">"]), &"name".to_string())
        .unwrap();
    let set = m.method_set(GenOpt::all());
    let texts: Vec<&str> = set.iter().map(|d| d.text.as_str()).collect();
    // clear_name unsets the presence marker, so has_name reads false after it
    assert_eq!(
        texts[0],
        "#[inline] pub fn has_name(&self) -> bool { self.name.is_some() }\n"
    );
    assert_eq!(
        texts[1],
        "#[inline] pub fn clear_name(&mut self) { self.name = ::std::option::Option::None }\n"
    );
    // set_name wraps the value in the presence marker, so has_name reads true
    assert_eq!(
        texts[2],
        "#[inline] pub fn set_name(&mut self, v: String) { self.name = ::std::option::Option::Some(v); }\n"
    );
    // get_name hands out the stored value, or the empty default when absent
    assert_eq!(
        texts[3],
        "#[inline] pub fn get_name(&self) -> &str { match self.name.as_ref() { Some(v) => v, None => \"\", } }\n"
    );
    assert_eq!(
        texts[4],
        "#[inline] pub fn mut_name(&mut self) -> &mut String { if self.name.is_none() { self.name = ::std::option::Option::Some(String::default()); } self.name.as_mut().unwrap() }\n"
    );
    // take_name moves the value out and leaves the field cleared
    assert_eq!(
        texts[5],
        "#[inline] pub fn take_name(&mut self) -> String { self.name.take().unwrap_or_else(::std::string::String::new) }\n"
    );
    assert_eq!(set.len(), 6);
}

/// A record carrying the accessors exactly as the synthesizer emits them
/// for a field `name: Optional(String)`; each body below is asserted
/// against the emitted text in `optional_string_accessor_semantics`.
struct OptionalStringRecord {
    name: ::std::option::Option<String>,
}

impl OptionalStringRecord {
    pub fn has_name(&self) -> bool {
        self.name.is_some()
    }

    pub fn clear_name(&mut self) {
        self.name = ::std::option::Option::None
    }

    pub fn set_name(&mut self, v: String) {
        self.name = ::std::option::Option::Some(v);
    }

    pub fn get_name(&self) -> &str {
        match self.name.as_ref() {
            Some(v) => v,
            None => "",
        }
    }

    pub fn mut_name(&mut self) -> &mut String {
        if self.name.is_none() {
            self.name = ::std::option::Option::Some(String::default());
        }
        self.name.as_mut().unwrap()
    }

    pub fn take_name(&mut self) -> String {
        self.name.take().unwrap_or_else(::std::string::String::new)
    }
}

#[test]
fn optional_string_runtime_scenario() {
    let mut r = OptionalStringRecord { name: None };
    assert!(!r.has_name());
    assert_eq!(r.get_name(), "");
    r.set_name("x".to_string());
    assert!(r.has_name());
    assert_eq!(r.get_name(), "x");
    assert_eq!(r.take_name(), "x");
    assert!(!r.has_name());
    assert_eq!(r.get_name(), "");
    r.set_name("y".to_string());
    r.clear_name();
    assert!(!r.has_name());
    assert_eq!(r.get_name(), "");
    assert_eq!(r.mut_name(), "");
    assert!(r.has_name());
}

#[test]
fn methods_emitted_in_fixed_order() {
    let kind = FieldKind::Str;
    let m = kind.methods(&ty(&["String"]), &"s".to_string()).unwrap();
    let set = m.method_set(GenOpt::all());
    let cats: Vec<Category> = set.iter().map(|d| d.category).collect();
    assert_eq!(
        cats,
        vec![Category::Clear, Category::Setter, Category::Getter, Category::Mutate, Category::Take]
    );
}

#[test]
fn scalar_emits_no_has_mut_or_take() {
    let kind = FieldKind::Int;
    let m = kind.methods(&ty(&["i32"]), &"id".to_string()).unwrap();
    let set = m.method_set(GenOpt::all());
    let cats: Vec<Category> = set.iter().map(|d| d.category).collect();
    assert_eq!(cats, vec![Category::Clear, Category::Setter, Category::Getter]);
    assert_eq!(
        set[0].text,
        "#[inline] pub fn clear_id(&mut self) { self.id = 0 }\n"
    );
}

#[test]
fn repeated_emits_no_set_and_empties_on_clear() {
    let kind = FieldKind::Repeated { prefix: Vec::new() };
    let m = kind
        .methods(&ty(&["Vec", "<", "String", ">"]), &"tags".to_string())
        .unwrap();
    let set = m.method_set(GenOpt::all());
    let cats: Vec<Category> = set.iter().map(|d| d.category).collect();
    assert_eq!(
        cats,
        vec![Category::Clear, Category::Getter, Category::Mutate, Category::Take]
    );
    assert_eq!(
        set[0].text,
        "#[inline] pub fn clear_tags(&mut self) { self.tags.clear(); }\n"
    );
    assert_eq!(
        set[3].text,
        "#[inline] pub fn take_tags(&mut self) -> ::std::vec::Vec<String> { ::std::mem::replace(&mut self.tags, ::std::vec::Vec::new()) }\n"
    );
}

#[test]
fn repeated_message_rewrites_super_markers() {
    // declared with one marker, referenced from two levels deep
    let kind = FieldKind::Repeated { prefix: toks(&["a", "b"]) };
    let m = kind
        .methods(
            &ty(&["Vec", "<", "super", "::", "Foo", ">"]),
            &"items".to_string(),
        )
        .unwrap();
    let set = m.method_set(GenOpt::all());
    let get = set.iter().find(|d| d.category == Category::Getter).unwrap();
    assert_eq!(
        get.text,
        "#[inline] pub fn get_items(&self) -> &[a::Foo] { &self.items }\n"
    );
}

#[test]
fn repeated_message_with_excess_marker_keeps_it() {
    // two markers, one level deep: one marker stays unresolved
    let kind = FieldKind::Repeated { prefix: toks(&["a"]) };
    let m = kind
        .methods(
            &ty(&["Vec", "<", "super", "::", "super", "::", "Foo", ">"]),
            &"items".to_string(),
        )
        .unwrap();
    let set = m.method_set(GenOpt::all());
    let get = set.iter().find(|d| d.category == Category::Getter).unwrap();
    assert_eq!(
        get.text,
        "#[inline] pub fn get_items(&self) -> &[super :: Foo] { &self.items }\n"
    );
}

#[test]
fn repeated_builtin_element_is_never_prefixed() {
    let kind = FieldKind::Repeated { prefix: toks(&["a", "b"]) };
    let m = kind
        .methods(&ty(&["Vec", "<", "u64", ">"]), &"ids".to_string())
        .unwrap();
    let set = m.method_set(GenOpt::all());
    let get = set.iter().find(|d| d.category == Category::Getter).unwrap();
    assert_eq!(get.text, "#[inline] pub fn get_ids(&self) -> &[u64] { &self.ids }\n");
}

#[test]
fn enumeration_decodes_strictly_and_encodes_on_set() {
    let kind = FieldKind::Enumeration("State".to_string());
    let m = kind.methods(&ty(&["i32"]), &"state".to_string()).unwrap();
    let set = m.method_set(GenOpt::all());
    let cats: Vec<Category> = set.iter().map(|d| d.category).collect();
    assert_eq!(cats, vec![Category::Clear, Category::Setter, Category::Getter]);
    assert_eq!(
        set[1].text,
        "#[inline] pub fn set_state(&mut self, v: State) { self.state = v as i32; }\n"
    );
    assert_eq!(
        set[2].text,
        "#[inline] pub fn get_state(&self) -> State { match State::from_i32(self.state) { Some(e) => e, None => panic!(\"Unknown enum variant: {}\", self.state), } }\n"
    );
}

#[test]
fn boxed_message_is_borrowed_unboxed() {
    let kind = FieldKind::Message;
    let m = kind
        .methods(&ty(&["Box", "<", "Foo", ">"]), &"inner".to_string())
        .unwrap();
    let set = m.method_set(GenOpt::all());
    let get = set.iter().find(|d| d.category == Category::Getter).unwrap();
    assert_eq!(get.text, "#[inline] pub fn get_inner(&self) -> &Foo { &self.inner }\n");
}

#[test]
fn raw_identifier_is_de_escaped_in_method_names() {
    let kind = FieldKind::Bool;
    let m = kind.methods(&ty(&["bool"]), &"r#type".to_string()).unwrap();
    let set = m.method_set(GenOpt::all());
    assert_eq!(set[0].name, "clear_type");
    assert_eq!(
        set[0].text,
        "#[inline] pub fn clear_type(&mut self) { self.r#type = false }\n"
    );
}

#[test]
fn disabled_flags_suppress_each_category() {
    let kind = FieldKind::Str;
    let m = kind.methods(&ty(&["String"]), &"s".to_string()).unwrap();
    assert_eq!(m.method_set(GenOpt::empty()).len(), 0);
    let mut only_take = GenOpt::empty();
    only_take.take = true;
    let set = m.method_set(only_take);
    assert_eq!(set.len(), 1);
    assert_eq!(set[0].category, Category::Take);
}
