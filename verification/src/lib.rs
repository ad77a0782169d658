//! Generation of legacy-style accessor wrappers for protobuf message types.
//!
//! The crate inspects Rust source files produced by a minimal protobuf code
//! generator, classifies every message field by its semantic annotations, and
//! synthesizes an adapter source file that implements the richer, legacy
//! accessor API (`get_*`, `set_*`, `has_*`, `clear_*`, `mut_*`, `take_*`) in
//! terms of the generated fields.

use vstd::prelude::*;

pub mod classify;
pub mod enumeration;
mod error;
pub mod lexer;
pub mod loader;
pub mod methods;
pub mod model;
pub mod rewrite;
mod strutil;
pub mod types;
pub mod wrapper;

pub use error::Error;
pub use wrapper::WrapperGen;

verus! {

/// The set of accessor categories that a caller asks to be emitted.
///
/// Each flag switches one category of generated items on or off; the
/// associated functions build the named presets.
#[derive(Clone, Copy, PartialEq, Eq, Structural, Debug)]
pub struct GenOpt {
    /// Emit an implementation of the legacy message-interface contract.
    pub message: bool,
    /// Emit plain getters.
    pub trivial_get: bool,
    /// Emit plain setters.
    pub trivial_set: bool,
    /// Emit the `new_` constructor.
    pub new_fn: bool,
    /// Emit `clear_*` methods.
    pub clear: bool,
    /// Emit `has_*` methods.
    pub has: bool,
    /// Emit mutable getters.
    pub mutation: bool,
    /// Emit `take_*` methods.
    pub take: bool,
}

impl GenOpt {
    /// Every category enabled.
    pub fn all() -> (r: GenOpt)
        ensures
            r == (GenOpt {
                message: true,
                trivial_get: true,
                trivial_set: true,
                new_fn: true,
                clear: true,
                has: true,
                mutation: true,
                take: true,
            }),
    {
        GenOpt {
            message: true,
            trivial_get: true,
            trivial_set: true,
            new_fn: true,
            clear: true,
            has: true,
            mutation: true,
            take: true,
        }
    }

    /// No category enabled.
    pub fn empty() -> (r: GenOpt)
        ensures
            r == (GenOpt {
                message: false,
                trivial_get: false,
                trivial_set: false,
                new_fn: false,
                clear: false,
                has: false,
                mutation: false,
                take: false,
            }),
    {
        GenOpt {
            message: false,
            trivial_get: false,
            trivial_set: false,
            new_fn: false,
            clear: false,
            has: false,
            mutation: false,
            take: false,
        }
    }

    /// Everything except the legacy message-interface adapter.
    pub fn no_msg() -> (r: GenOpt)
        ensures
            r == (GenOpt {
                message: false,
                trivial_get: true,
                trivial_set: true,
                new_fn: true,
                clear: true,
                has: true,
                mutation: true,
                take: true,
            }),
    {
        GenOpt {
            message: false,
            trivial_get: true,
            trivial_set: true,
            new_fn: true,
            clear: true,
            has: true,
            mutation: true,
            take: true,
        }
    }

    /// Everything except the message-interface adapter and the `new_`
    /// constructor.
    pub fn accessor() -> (r: GenOpt)
        ensures
            r == (GenOpt {
                message: false,
                trivial_get: true,
                trivial_set: true,
                new_fn: false,
                clear: true,
                has: true,
                mutation: true,
                take: true,
            }),
    {
        GenOpt {
            message: false,
            trivial_get: true,
            trivial_set: true,
            new_fn: false,
            clear: true,
            has: true,
            mutation: true,
            take: true,
        }
    }

    /// Whether every category enabled in `other` is also enabled in `self`.
    pub fn contains(&self, other: &GenOpt) -> (r: bool)
        ensures
            r == ((other.message ==> self.message) && (other.trivial_get ==> self.trivial_get)
                && (other.trivial_set ==> self.trivial_set) && (other.new_fn ==> self.new_fn) && (
            other.clear ==> self.clear) && (other.has ==> self.has) && (other.mutation
                ==> self.mutation) && (other.take ==> self.take)),
    {
        (!other.message || self.message) && (!other.trivial_get || self.trivial_get)
            && (!other.trivial_set || self.trivial_set) && (!other.new_fn || self.new_fn)
            && (!other.clear || self.clear) && (!other.has || self.has) && (!other.mutation
            || self.mutation) && (!other.take || self.take)
    }
}

/// Every capability flag enabled.
pub open spec fn spec_genopt_all() -> GenOpt {
    GenOpt {
        message: true,
        trivial_get: true,
        trivial_set: true,
        new_fn: true,
        clear: true,
        has: true,
        mutation: true,
        take: true,
    }
}

/// One input of a generation pass: a generated source file's stem and its
/// text.
pub struct SourceText {
    pub name: String,
    pub text: String,
}

/// One output of a generation pass: the adapter file's stem and its text.
pub struct GeneratedFile {
    pub name: String,
    pub text: String,
}

/// One entry of a directory listing, as the caller reads it from disk.
pub struct DirEntryInfo {
    pub name: String,
    pub is_dir: bool,
}

/// One re-export to append to a generated module: the file stem and the
/// line of text.
pub struct ReExport {
    pub name: String,
    pub line: String,
}

/// Ghost form of [`ReExport`].
pub struct ReExportV {
    pub name: Seq<char>,
    pub line: Seq<char>,
}

impl DeepView for ReExport {
    type V = ReExportV;

    open spec fn deep_view(&self) -> ReExportV {
        ReExportV { name: self.name@, line: self.line@ }
    }
}

/// Whether a file stem is excluded from the emitted module tree: adapter
/// files, the module file itself, and every stem holding a black-listed
/// substring.
pub open spec fn spec_module_excluded(stem: Seq<char>, black_list: Seq<Seq<char>>) -> bool {
    "wrapper_"@.is_prefix_of(stem) || stem == "mod"@ || exists|i: int|
        0 <= i < black_list.len() && #[trigger] crate::strutil::spec_contains(stem, black_list[i])
}

/// Whether a file stem takes a re-export of its companion service module:
/// it is a plain generated module and the listing holds a `<stem>_grpc`
/// companion.
pub open spec fn spec_grpc_selected(stems: Seq<Seq<char>>, stem: Seq<char>) -> bool {
    !("wrapper_"@.is_prefix_of(stem)) && stem != "mod"@ && !("_grpc"@.is_suffix_of(stem)) && exists|
        j: int,
    | 0 <= j < stems.len() && #[trigger] stems[j] == stem + "_grpc"@
}

/// The re-export line of one service module.
pub open spec fn spec_reexport_line(stem: Seq<char>) -> Seq<char> {
    "pub use super::"@ + stem + "_grpc::*;\n"@
}

/// The re-exports of the stems from index `i` on, in listing order: one
/// entry for every selected stem.
pub open spec fn spec_reexports_from(stems: Seq<Seq<char>>, i: int) -> Seq<ReExportV>
    decreases stems.len() - i,
{
    if i < 0 || i >= stems.len() {
        Seq::<ReExportV>::empty()
    } else {
        (if spec_grpc_selected(stems, stems[i]) {
            seq![ReExportV { name: stems[i], line: spec_reexport_line(stems[i]) }]
        } else {
            Seq::<ReExportV>::empty()
        }) + spec_reexports_from(stems, i + 1)
    }
}

/// The proto file paths built from a directory listing: every entry that
/// is not a directory, under the searched directory.
pub open spec fn spec_proto_files(dir: Seq<char>, entries: Seq<DirEntryInfo>) -> Seq<Seq<char>>
    decreases entries.len(),
{
    if entries.len() == 0 {
        Seq::<Seq<char>>::empty()
    } else {
        spec_proto_files(dir, entries.drop_last()) + (if entries.last().is_dir {
            Seq::<Seq<char>>::empty()
        } else {
            seq![dir + "/"@ + entries.last().name@]
        })
    }
}

/// Collects the generated type definitions of a schema into adapter
/// sources implementing the legacy accessor API.
pub struct Builder {
    /// The schema files to operate on.
    pub files: Vec<String>,
    /// The include directories handed to the external schema compiler.
    pub includes: Vec<String>,
    /// Module-name substrings excluded from the emitted module tree.
    pub black_list: Vec<String>,
    /// The directory the caller writes output into.
    pub out_dir: String,
    /// The capability flags of the wrapper pass.
    pub wrapper_opts: GenOpt,
    /// A module name under which every generated item is re-exported.
    pub package_name: Option<String>,
    /// Whether service modules are re-exported from their corresponding
    /// module.
    pub re_export_services: bool,
}

impl Builder {
    /// A builder with the standard include directories and black list, no
    /// files, every capability enabled and no output directory yet: the
    /// caller supplies one through [`Builder::out_dir`].
    pub fn new() -> (r: Builder)
        ensures
            r.files@.len() == 0,
            r.includes.deep_view() == seq!["include"@, "proto"@],
            r.black_list.deep_view() == seq!["protobuf"@, "google"@, "gogoproto"@],
            r.out_dir@.len() == 0,
            r.wrapper_opts == spec_genopt_all(),
            r.package_name is None,
            r.re_export_services,
    {
        let mut includes: Vec<String> = Vec::new();
        let ghost i0 = includes;
        includes.push(String::from_str("include"));
        let ghost i1 = includes;
        includes.push(String::from_str("proto"));
        let mut black_list: Vec<String> = Vec::new();
        let ghost b0 = black_list;
        black_list.push(String::from_str("protobuf"));
        let ghost b1 = black_list;
        black_list.push(String::from_str("google"));
        let ghost b2 = black_list;
        black_list.push(String::from_str("gogoproto"));
        proof {
            assert(includes.deep_view() =~= seq!["include"@, "proto"@]) by {
                assert(includes@.len() == 2);
                assert(includes@[1]@ == "proto"@);
                assert(i1@ == includes@.drop_last());
                assert(includes@[0] == i1@[0]);
            }
            assert(black_list.deep_view() =~= seq!["protobuf"@, "google"@, "gogoproto"@]) by {
                assert(black_list@.len() == 3);
                assert(b2@ == black_list@.drop_last());
                assert(b1@ == b2@.drop_last());
                assert(black_list@[0] == b1@[0]);
                assert(black_list@[1] == b2@[1]);
            }
        }
        Builder {
            files: Vec::new(),
            includes,
            black_list,
            out_dir: String::new(),
            wrapper_opts: GenOpt::all(),
            package_name: None,
            re_export_services: true,
        }
    }

    /// Runs the wrapper pass over the given generated sources: one adapter
    /// file per input, named `wrapper_<stem>`, each holding the fixed
    /// header and the adapter text of its unit.  The first fatal error of
    /// any unit aborts the whole run with no partial result.
    pub fn generate(&self, sources: &Vec<SourceText>) -> (r: Result<Vec<GeneratedFile>, Error>)
        requires
            self.files@.len() > 0,
        ensures
            r matches Ok(outs) ==> outs@.len() == sources@.len() && forall|i: int|
                0 <= i < outs@.len() ==> (#[trigger] outs@[i].name@) == "wrapper_"@
                    + sources@[i].name@ && crate::wrapper::spec_generate(
                    sources@[i].text@,
                    self.wrapper_opts,
                ) == Ok::<Seq<char>, Error>(outs@[i].text@),
            r matches Err(e) ==> exists|i: int|
                0 <= i < sources@.len() && #[trigger] crate::wrapper::spec_generate(
                    sources@[i].text@,
                    self.wrapper_opts,
                ) == Err::<Seq<char>, Error>(e),
    {
        let mut outs: Vec<GeneratedFile> = Vec::new();
        let mut i: usize = 0;
        while i < sources.len()
            invariant
                i <= sources@.len(),
                outs@.len() == i,
                forall|j: int|
                    0 <= j < i ==> (#[trigger] outs@[j].name@) == "wrapper_"@ + sources@[j].name@
                        && crate::wrapper::spec_generate(sources@[j].text@, self.wrapper_opts)
                        == Ok::<Seq<char>, Error>(outs@[j].text@),
            decreases sources@.len() - i,
        {
            let src = &sources[i];
            let gen = crate::wrapper::WrapperGen::new(src.text.clone(), self.wrapper_opts);
            let text = match gen.generate() {
                Ok(t) => t,
                Err(e) => {
                    proof {
                        assert(crate::wrapper::spec_generate(
                            sources@[i as int].text@,
                            self.wrapper_opts,
                        ) == Err::<Seq<char>, Error>(e));
                    }
                    return Err(e);
                },
            };
            let mut name = String::from_str("wrapper_");
            name.append(src.name.as_str());
            outs.push(GeneratedFile { name, text });
            i = i + 1;
        }
        Ok(outs)
    }

    /// Sets the capability flags of the wrapper pass.
    pub fn wrapper_options(&mut self, wrapper_opts: GenOpt)
        ensures
            *final(self) == (Builder { wrapper_opts, ..*old(self) }),
    {
        self.wrapper_opts = wrapper_opts;
    }

    /// Sets the schema files to operate on.
    pub fn files(&mut self, files: Vec<String>)
        ensures
            *final(self) == (Builder { files, ..*old(self) }),
    {
        self.files = files;
    }

    /// Sets the include directories.
    pub fn includes(&mut self, includes: Vec<String>)
        ensures
            *final(self) == (Builder { includes, ..*old(self) }),
    {
        self.includes = includes;
    }

    /// Adds one entry to the compiler search directories.
    pub fn append_include(&mut self, entry: String)
        ensures
            final(self).includes@ == old(self).includes@.push(entry),
            final(self).files == old(self).files,
            final(self).black_list == old(self).black_list,
            final(self).out_dir == old(self).out_dir,
            final(self).wrapper_opts == old(self).wrapper_opts,
            final(self).package_name == old(self).package_name,
            final(self).re_export_services == old(self).re_export_services,
    {
        self.includes.push(entry);
    }

    /// Replaces the black list of module-name substrings.
    pub fn black_list(&mut self, black_list: Vec<String>)
        ensures
            *final(self) == (Builder { black_list, ..*old(self) }),
    {
        self.black_list = black_list;
    }

    /// Adds one file name to the builder's black list.
    ///
    /// Files named on the black list are not made modules of the generated
    /// program.
    pub fn append_to_black_list(&mut self, entry: String)
        ensures
            final(self).black_list@ == old(self).black_list@.push(entry),
            final(self).files == old(self).files,
            final(self).includes == old(self).includes,
            final(self).out_dir == old(self).out_dir,
            final(self).wrapper_opts == old(self).wrapper_opts,
            final(self).package_name == old(self).package_name,
            final(self).re_export_services == old(self).re_export_services,
    {
        self.black_list.push(entry);
    }

    /// Sets the directory the caller writes output into.
    pub fn out_dir(&mut self, out_dir: String)
        ensures
            *final(self) == (Builder { out_dir, ..*old(self) }),
    {
        self.out_dir = out_dir;
    }

    /// If specified, a module with the given name will be generated which
    /// re-exports all generated items.
    pub fn package_name(&mut self, package_name: String)
        ensures
            final(self).package_name == Some(package_name),
            final(self).files == old(self).files,
            final(self).includes == old(self).includes,
            final(self).black_list == old(self).black_list,
            final(self).out_dir == old(self).out_dir,
            final(self).wrapper_opts == old(self).wrapper_opts,
            final(self).re_export_services == old(self).re_export_services,
    {
        self.package_name = Some(package_name);
    }

    /// Whether services defined in separate modules should be re-exported
    /// from their corresponding module.  Default is `true`.
    pub fn re_export_services(&mut self, re_export_services: bool)
        ensures
            *final(self) == (Builder { re_export_services, ..*old(self) }),
    {
        self.re_export_services = re_export_services;
    }

    /// Sets the schema files from a directory listing: every entry that is
    /// not a directory, under the searched directory.
    pub fn files_from_dir_listing(&mut self, proto_dir: &str, entries: &Vec<DirEntryInfo>)
        ensures
            final(self).files.deep_view() == spec_proto_files(proto_dir@, entries@),
            final(self).includes == old(self).includes,
            final(self).black_list == old(self).black_list,
            final(self).out_dir == old(self).out_dir,
            final(self).wrapper_opts == old(self).wrapper_opts,
            final(self).package_name == old(self).package_name,
            final(self).re_export_services == old(self).re_export_services,
    {
        let mut files: Vec<String> = Vec::new();
        let mut i: usize = 0;
        proof {
            assert(files.deep_view() =~= spec_proto_files(proto_dir@, entries@.take(0)));
        }
        while i < entries.len()
            invariant
                i <= entries@.len(),
                files.deep_view() == spec_proto_files(proto_dir@, entries@.take(i as int)),
            decreases entries@.len() - i,
        {
            let e = &entries[i];
            proof {
                assert(entries@.take(i as int + 1).drop_last() =~= entries@.take(i as int));
                assert(entries@.take(i as int + 1).last() == entries@[i as int]);
            }
            if !e.is_dir {
                let ghost pre = files;
                let mut p = String::from_str(proto_dir);
                p.append("/");
                p.append(e.name.as_str());
                let ghost gp = p;
                files.push(p);
                proof {
                    crate::model::lemma_deep_view_push(pre, files, gp);
                    assert(files.deep_view() =~= spec_proto_files(
                        proto_dir@,
                        entries@.take(i as int + 1),
                    ));
                }
            } else {
                proof {
                    assert(files.deep_view() + Seq::<Seq<char>>::empty() =~= files.deep_view());
                }
            }
            i = i + 1;
        }
        proof {
            assert(entries@.take(entries@.len() as int) =~= entries@);
        }
        self.files = files;
    }

    /// The module name a generated file stem contributes to the module
    /// tree, or nothing when the stem is excluded: adapter files, the
    /// module file itself, and stems holding a black-listed substring stay
    /// out; dashes become underscores.
    pub fn module_name_of_stem(&self, stem: &String) -> (r: Option<String>)
        ensures
            (match r {
                None => spec_module_excluded(stem@, self.black_list.deep_view()),
                Some(s) => !spec_module_excluded(stem@, self.black_list.deep_view()) && s@
                    == crate::strutil::spec_dash_to_underscore(stem@),
            }),
    {
        let ghost bl = self.black_list.deep_view();
        if crate::strutil::str_starts_with(stem.as_str(), "wrapper_") {
            return None;
        }
        if crate::strutil::string_eq_str(stem, "mod") {
            return None;
        }
        let mut i: usize = 0;
        while i < self.black_list.len()
            invariant
                bl == self.black_list.deep_view(),
                bl.len() == self.black_list@.len(),
                i <= self.black_list@.len(),
                forall|j: int|
                    0 <= j < i ==> !#[trigger] crate::strutil::spec_contains(stem@, bl[j]),
            decreases self.black_list@.len() - i,
        {
            proof {
                assert(self.black_list[i as int]@ == bl[i as int]);
            }
            if crate::strutil::str_contains(stem.as_str(), self.black_list[i].as_str()) {
                return None;
            }
            i = i + 1;
        }
        proof {
            if spec_module_excluded(stem@, bl) {
                let j = choose|j: int|
                    0 <= j < bl.len() && #[trigger] crate::strutil::spec_contains(stem@, bl[j]);
                assert(false);
            }
        }
        Some(crate::strutil::dash_to_underscore(stem.as_str()))
    }

    /// The re-export lines to append to generated modules: one for every
    /// stem whose `<stem>_grpc` companion stands in the listing, in listing
    /// order; none at all when service re-export is switched off.
    pub fn import_grpcio(&self, stems: &Vec<String>) -> (r: Vec<ReExport>)
        ensures
            !self.re_export_services ==> r@.len() == 0,
            self.re_export_services ==> r.deep_view() == spec_reexports_from(stems.deep_view(), 0),
    {
        let mut out: Vec<ReExport> = Vec::new();
        if !self.re_export_services {
            return out;
        }
        let ghost sv = stems.deep_view();
        let mut i: usize = 0;
        proof {
            assert(out.deep_view() + spec_reexports_from(sv, 0) =~= spec_reexports_from(sv, 0));
        }
        while i < stems.len()
            invariant
                sv == stems.deep_view(),
                sv.len() == stems@.len(),
                i <= stems@.len(),
                spec_reexports_from(sv, 0) == out.deep_view() + spec_reexports_from(sv, i as int),
            decreases stems@.len() - i,
        {
            let stem = &stems[i];
            proof {
                assert(stem@ == sv[i as int]);
            }
            let plain = !crate::strutil::str_starts_with(stem.as_str(), "wrapper_")
                && !crate::strutil::string_eq_str(stem, "mod") && !crate::strutil::str_ends_with(
                stem.as_str(),
                "_grpc",
            );
            let mut selected: bool = false;
            if plain {
                let mut companion = stem.clone();
                companion.append("_grpc");
                let mut j: usize = 0;
                while j < stems.len()
                    invariant
                        sv == stems.deep_view(),
                        sv.len() == stems@.len(),
                        j <= stems@.len(),
                        companion@ == sv[i as int] + "_grpc"@,
                        i < stems@.len(),
                        selected == exists|t: int|
                            0 <= t < j && #[trigger] sv[t] == sv[i as int] + "_grpc"@,
                    decreases stems@.len() - j,
                {
                    if crate::strutil::str_eq(stems[j].as_str(), companion.as_str()) {
                        proof {
                            assert(sv[j as int] == sv[i as int] + "_grpc"@);
                        }
                        selected = true;
                    }
                    j = j + 1;
                }
            }
            proof {
                assert((plain && selected) == spec_grpc_selected(sv, sv[i as int]));
            }
            if plain && selected {
                let ghost pre = out;
                let mut line = String::from_str("pub use super::");
                line.append(stem.as_str());
                line.append("_grpc::*;\n");
                let entry = ReExport { name: stem.clone(), line };
                let ghost gentry = entry;
                out.push(entry);
                proof {
                    crate::model::lemma_deep_view_push(pre, out, gentry);
                    assert(pre.deep_view() + (seq![
                        ReExportV { name: sv[i as int], line: spec_reexport_line(sv[i as int]) },
                    ] + spec_reexports_from(sv, i as int + 1)) =~= out.deep_view()
                        + spec_reexports_from(sv, i as int + 1));
                }
            } else {
                proof {
                    assert(out.deep_view() + (Seq::<ReExportV>::empty() + spec_reexports_from(
                        sv,
                        i as int + 1,
                    )) =~= out.deep_view() + spec_reexports_from(sv, i as int + 1));
                }
            }
            i = i + 1;
        }
        proof {
            assert(out.deep_view() + spec_reexports_from(sv, sv.len() as int) =~= out.deep_view());
        }
        out
    }

    /// Rewrites every proto3 enum read of one generated source file to the
    /// older guarded form; see [`crate::rewrite`].
    pub fn replace_read_unknown_fields(&self, text: &str) -> (r: Option<String>)
        ensures
            (r is Some) == crate::rewrite::regex_pattern_ok(
                crate::rewrite::spec_enum_read_pattern(),
            ),
            r matches Some(s) ==> s@ == crate::rewrite::regex_replaced(
                crate::rewrite::spec_enum_read_pattern(),
                crate::rewrite::spec_enum_read_replacement(),
                text@,
            ),
            r matches Some(s) ==> (!crate::rewrite::regex_has_match(
                crate::rewrite::spec_enum_read_pattern(),
                text@,
            ) ==> s@ == text@),
    {
        crate::rewrite::replace_read_unknown_fields(text)
    }
}

impl Default for Builder {
    /// The same configuration as [`Builder::new`].
    fn default() -> (r: Builder)
        ensures
            r.files@.len() == 0,
            r.includes.deep_view() == seq!["include"@, "proto"@],
            r.black_list.deep_view() == seq!["protobuf"@, "google"@, "gogoproto"@],
            r.out_dir@.len() == 0,
            r.wrapper_opts == spec_genopt_all(),
            r.package_name is None,
            r.re_export_services,
    {
        Builder::new()
    }
}

} // verus!
