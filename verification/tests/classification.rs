use protobuf_build::classify::FieldKind;
use protobuf_build::model::{Attr, Meta};
use protobuf_build::Error;

fn word(w: &str) -> Meta {
    Meta::Word(w.to_string())
}

fn name_value(n: &str, v: &str) -> Meta {
    Meta::NameValue(n.to_string(), v.to_string())
}

fn prost_attr(metas: Vec<Meta>) -> Attr {
    Attr { path: "prost".to_string(), tokens: String::new(), metas }
}

fn no_prefix() -> Vec<String> {
    Vec::new()
}

#[test]
fn classification_is_deterministic() {
    let attrs = vec![prost_attr(vec![word("message"), word("optional"), name_value("tag", "1")])];
    let first = FieldKind::from_attrs(&attrs, &no_prefix());
    let second = FieldKind::from_attrs(&attrs, &no_prefix());
    assert_eq!(first, second);
    assert_eq!(
        first.unwrap(),
        FieldKind::Optional(Box::new(FieldKind::Message))
    );
}

#[test]
fn single_word_kinds() {
    let cases: Vec<(&str, FieldKind)> = vec![
        ("message", FieldKind::Message),
        ("bytes", FieldKind::Bytes),
        ("string", FieldKind::Str),
        ("bool", FieldKind::Bool),
        ("float", FieldKind::Float),
        ("double", FieldKind::Float),
        ("int32", FieldKind::Int),
        ("int64", FieldKind::Int),
        ("uint32", FieldKind::Int),
        ("uint64", FieldKind::Int),
    ];
    for (w, expected) in cases {
        let attrs = vec![prost_attr(vec![word(w), name_value("tag", "1")])];
        assert_eq!(FieldKind::from_attrs(&attrs, &no_prefix()).unwrap(), expected);
    }
}

#[test]
fn repeated_records_namespace_stack() {
    let prefix = vec!["a".to_string(), "b".to_string()];
    let attrs = vec![prost_attr(vec![word("message"), word("repeated"), name_value("tag", "1")])];
    let kind = FieldKind::from_attrs(&attrs, &prefix).unwrap();
    assert_eq!(kind, FieldKind::Repeated { prefix: prefix.clone() });
}

#[test]
fn enumeration_value_is_prefixed() {
    let prefix = vec!["cluster".to_string()];
    let attrs = vec![prost_attr(vec![name_value("enumeration", "State"), name_value("tag", "1")])];
    let kind = FieldKind::from_attrs(&attrs, &prefix).unwrap();
    assert_eq!(kind, FieldKind::Enumeration("cluster::State".to_string()));
}

#[test]
fn oneof_and_map_kinds() {
    let attrs = vec![prost_attr(vec![name_value("oneof", "payload"), name_value("tag", "1")])];
    assert_eq!(
        FieldKind::from_attrs(&attrs, &no_prefix()).unwrap(),
        FieldKind::OneOf("payload".to_string())
    );
    let attrs2 = vec![prost_attr(vec![name_value("map", "string, int32"), name_value("tag", "2")])];
    assert_eq!(FieldKind::from_attrs(&attrs2, &no_prefix()).unwrap(), FieldKind::Mapping);
}

#[test]
fn optional_wraps_the_winning_kind() {
    let attrs = vec![prost_attr(vec![word("optional"), word("string"), name_value("tag", "1")])];
    assert_eq!(
        FieldKind::from_attrs(&attrs, &no_prefix()).unwrap(),
        FieldKind::Optional(Box::new(FieldKind::Str))
    );
}

#[test]
fn precedence_picks_the_smallest_rank() {
    // repeated outranks message: both present means a repeated message
    let attrs = vec![prost_attr(vec![word("message"), word("repeated")])];
    assert_eq!(
        FieldKind::from_attrs(&attrs, &no_prefix()).unwrap(),
        FieldKind::Repeated { prefix: Vec::new() }
    );
}

#[test]
fn no_recognized_annotation_is_fatal() {
    let attrs = vec![prost_attr(vec![name_value("tag", "1")])];
    assert_eq!(
        FieldKind::from_attrs(&attrs, &no_prefix()),
        Err(Error::UnknownFieldKind)
    );
    let empty: Vec<Attr> = Vec::new();
    assert_eq!(
        FieldKind::from_attrs(&empty, &no_prefix()),
        Err(Error::UnknownFieldKind)
    );
}

#[test]
fn optional_around_unsupported_kind_is_fatal() {
    let attrs = vec![prost_attr(vec![word("optional"), name_value("map", "string, int32")])];
    assert_eq!(
        FieldKind::from_attrs(&attrs, &no_prefix()),
        Err(Error::UnknownFieldKind)
    );
}

#[test]
fn later_attr_decides_when_earlier_says_nothing() {
    let other = Attr { path: "serde".to_string(), tokens: String::new(), metas: Vec::new() };
    let attrs = vec![other, prost_attr(vec![word("bool"), name_value("tag", "3")])];
    assert_eq!(FieldKind::from_attrs(&attrs, &no_prefix()).unwrap(), FieldKind::Bool);
}
