use protobuf_build::{Builder, DirEntryInfo, GenOpt, SourceText};

fn strs(xs: &[&str]) -> Vec<String> {
    xs.iter().map(|x| x.to_string()).collect()
}

#[test]
fn builder_defaults() {
    let b = Builder::new();
    assert!(b.files.is_empty());
    assert_eq!(b.includes.len(), 2);
    assert_eq!(b.includes[1], "proto");
    assert_eq!(b.black_list, strs(&["protobuf", "google", "gogoproto"]));
    assert_eq!(b.out_dir, "");
    assert_eq!(b.wrapper_opts, GenOpt::all());
    assert!(b.package_name.is_none());
    assert!(b.re_export_services);
    let d = Builder::default();
    assert_eq!(d.black_list, b.black_list);
}

#[test]
fn builder_setters() {
    let mut b = Builder::new();
    b.files(strs(&["a.proto"]));
    b.includes(strs(&["idir"]));
    b.append_include("jdir".to_string());
    b.black_list(strs(&["x"]));
    b.append_to_black_list("y".to_string());
    b.out_dir("out".to_string());
    b.package_name("kvproto".to_string());
    b.re_export_services(false);
    b.wrapper_options(GenOpt::accessor());
    assert_eq!(b.files, strs(&["a.proto"]));
    assert_eq!(b.includes, strs(&["idir", "jdir"]));
    assert_eq!(b.black_list, strs(&["x", "y"]));
    assert_eq!(b.out_dir, "out");
    assert_eq!(b.package_name, Some("kvproto".to_string()));
    assert!(!b.re_export_services);
    assert_eq!(b.wrapper_opts, GenOpt::accessor());
}

#[test]
fn genopt_presets_and_containment() {
    let all = GenOpt::all();
    let no_msg = GenOpt::no_msg();
    let accessor = GenOpt::accessor();
    let empty = GenOpt::empty();
    assert!(all.contains(&no_msg));
    assert!(all.contains(&accessor));
    assert!(no_msg.contains(&accessor));
    assert!(!accessor.contains(&no_msg));
    assert!(no_msg.contains(&empty));
    assert!(!no_msg.contains(&all));
    assert!(!no_msg.message);
    assert!(no_msg.new_fn);
    assert!(!accessor.new_fn);
    assert!(accessor.clear && accessor.has);
    assert!(accessor.take && accessor.mutation && accessor.trivial_get && accessor.trivial_set);
    assert!(empty.contains(&empty) && !empty.contains(&accessor));
}

#[test]
fn generate_names_one_wrapper_per_source() {
    let mut b = Builder::new();
    b.files(strs(&["item.proto"]));
    let sources = vec![
        SourceText {
            name: "item".to_string(),
            text: "#[derive(Clone, PartialEq, ::prost::Message)]\npub struct Item { #[prost(bool, tag = \"1\")] pub done: bool, }".to_string(),
        },
    ];
    let outs = b.generate(&sources).unwrap();
    assert_eq!(outs.len(), 1);
    assert_eq!(outs[0].name, "wrapper_item");
    assert!(outs[0].text.starts_with("// Generated file, please don't edit manually.\n\n"));
    assert!(outs[0].text.contains("fn get_done"));
}

#[test]
fn module_names_exclude_black_listed_stems() {
    let b = Builder::new();
    assert_eq!(b.module_name_of_stem(&"wrapper_item".to_string()), None);
    assert_eq!(b.module_name_of_stem(&"mod".to_string()), None);
    assert_eq!(b.module_name_of_stem(&"protobuf_extra".to_string()), None);
    assert_eq!(b.module_name_of_stem(&"google_apis".to_string()), None);
    assert_eq!(
        b.module_name_of_stem(&"my-service".to_string()),
        Some("my_service".to_string())
    );
}

#[test]
fn grpc_companions_are_re_exported() {
    let b = Builder::new();
    let stems = strs(&["kvpb", "kvpb_grpc", "mod", "wrapper_kvpb", "other"]);
    let r = b.import_grpcio(&stems);
    assert_eq!(r.len(), 1);
    assert_eq!(r[0].name, "kvpb");
    assert_eq!(r[0].line, "pub use super::kvpb_grpc::*;\n");
    let mut quiet = Builder::new();
    quiet.re_export_services(false);
    assert!(quiet.import_grpcio(&stems).is_empty());
}

#[test]
fn dir_listing_keeps_plain_files_only() {
    let mut b = Builder::new();
    let entries = vec![
        DirEntryInfo { name: "a.proto".to_string(), is_dir: false },
        DirEntryInfo { name: "nested".to_string(), is_dir: true },
        DirEntryInfo { name: "b.proto".to_string(), is_dir: false },
    ];
    b.files_from_dir_listing("proto", &entries);
    assert_eq!(b.files, strs(&["proto/a.proto", "proto/b.proto"]));
}

#[test]
fn enum_reads_are_rewritten_to_the_guarded_form() {
    let b = Builder::new();
    let input = "    ::protobuf::rt::read_proto3_enum_with_unknown_fields_into(wire_type, is, &mut self.state, 22)?;";
    let out = b.replace_read_unknown_fields(input).unwrap();
    assert_ne!(out, input);
    assert_eq!(
        out,
        "    if wire_type == ::protobuf::wire_format::WireTypeVarint {self.state = is.read_enum()?;} else {return ::std::result::Result::Err(::protobuf::rt::unexpected_wire_type(wire_type));};"
    );
    let untouched = "let x = compute_size();";
    assert_eq!(b.replace_read_unknown_fields(untouched).unwrap(), untouched);
}
