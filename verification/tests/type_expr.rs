use protobuf_build::model::{EnumDecl, TypeExpr, Variant};
use protobuf_build::enumeration::{decode_variant, encode_variant};
use protobuf_build::types::{cancel_supers, type_in_expr_context, unwrap_type};

fn toks(ts: &[&str]) -> Vec<String> {
    ts.iter().map(|t| t.to_string()).collect()
}

#[test]
fn test_type_in_expr_context() {
    assert_eq!("T", type_in_expr_context("T"));
    assert_eq!(
        ":: foo :: bar :: Vec :: < Baz >",
        type_in_expr_context("::foo::bar::Vec<Baz>")
    );
    assert_eq!(
        ":: foo :: bar :: Vec :: < Box < Baz > >",
        type_in_expr_context("::foo::bar::Vec::<Box<Baz>>")
    );
    assert_eq!(
        ":: foo :: bar :: Vec :: < Box < Baz > >",
        type_in_expr_context("::foo::bar::Vec<Box<Baz>>")
    );
}

#[test]
fn unwrap_type_removes_one_layer() {
    let ty = TypeExpr { tokens: toks(&["Option", "<", "Box", "<", "Foo", ">", ">"]) };
    let unwrapped = unwrap_type(&ty, "Option");
    assert_eq!(unwrapped.tokens, toks(&["Box", "<", "Foo", ">"]));
    let unboxed = unwrap_type(&unwrapped, "Box");
    assert_eq!(unboxed.tokens, toks(&["Foo"]));
}

#[test]
fn unwrap_type_leaves_other_containers_alone() {
    let ty = TypeExpr { tokens: toks(&["HashMap", "<", "K", ",", "V", ">"]) };
    let r = unwrap_type(&ty, "Vec");
    assert_eq!(r.tokens, ty.tokens);
    let plain = TypeExpr { tokens: toks(&["i32"]) };
    assert_eq!(unwrap_type(&plain, "Vec").tokens, toks(&["i32"]));
}

#[test]
fn cancel_supers_exact() {
    // two markers, referenced two levels deep: no residue, empty prefix
    let (p, t) = cancel_supers(
        &toks(&["a", "b"]),
        &toks(&["super", "::", "super", "::", "Foo"]),
    );
    assert_eq!(p, toks(&[]));
    assert_eq!(t, toks(&["Foo"]));
}

#[test]
fn cancel_supers_partial_and_excess() {
    // one marker, two levels deep: the outer segment stays
    let (p, t) = cancel_supers(&toks(&["a", "b"]), &toks(&["super", "::", "Foo"]));
    assert_eq!(p, toks(&["a"]));
    assert_eq!(t, toks(&["Foo"]));
    // three markers, two levels deep: exactly one marker is left unresolved
    let (p2, t2) = cancel_supers(
        &toks(&["a", "b"]),
        &toks(&["super", "::", "super", "::", "super", "::", "Foo"]),
    );
    assert_eq!(p2, toks(&[]));
    assert_eq!(t2, toks(&["super", "::", "Foo"]));
}

fn state_enum() -> EnumDecl {
    EnumDecl {
        prefix: Vec::new(),
        name: "State".to_string(),
        attrs: Vec::new(),
        variants: vec![
            Variant { name: "Unknown".to_string(), number: 0 },
            Variant { name: "Good".to_string(), number: 1 },
            Variant { name: "Bad".to_string(), number: 7 },
        ],
    }
}

#[test]
fn enumeration_round_trip() {
    let e = state_enum();
    for idx in 0..3 {
        let encoded = encode_variant(&e, idx);
        assert_eq!(decode_variant(&e, encoded), Some(idx));
    }
    assert_eq!(encode_variant(&e, 2), 7);
}

#[test]
fn enumeration_unknown_value_has_no_variant() {
    let e = state_enum();
    assert_eq!(decode_variant(&e, 3), None);
    assert_eq!(decode_variant(&e, -1), None);
}
