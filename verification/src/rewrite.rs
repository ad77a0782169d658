//! Post-processing of sources produced by the legacy generator: every
//! proto3 enum read is rewritten to the older guarded reading form.

use vstd::prelude::*;

verus! {

/// Whether `regex::Regex::new` accepts a pattern.  Acceptance is decided
/// by the pattern alone, so it is a function of that one argument.
pub uninterp spec fn regex_pattern_ok(pattern: Seq<char>) -> bool;

/// Whether a pattern matches anywhere in a text, as `regex::Regex::is_match`
/// reports it; matching is a function of the pattern and the text alone.
pub uninterp spec fn regex_has_match(pattern: Seq<char>, text: Seq<char>) -> bool;

/// What `regex::Regex::replace_all` returns for a pattern, a replacement
/// and a haystack.  The matching engine is deterministic, so the result is
/// a function of these three alone.
pub uninterp spec fn regex_replaced(
    pattern: Seq<char>,
    replacement: Seq<char>,
    text: Seq<char>,
) -> Seq<char>;

/// Relies on `regex::Regex::new` and `Regex::replace_all`: `new`
/// deterministically accepts or rejects a pattern, so the call succeeds
/// exactly when the pattern is acceptable; `replace_all` replaces every
/// non-overlapping match, `$n` in the replacement standing for the n-th
/// capture, and hands the haystack back unchanged when nothing matches.
#[verifier::external_body]
fn regex_replace_all(pattern: &str, replacement: &str, text: &str) -> (r: Option<String>)
    ensures
        (r is Some) == regex_pattern_ok(pattern@),
        r matches Some(s) ==> s@ == regex_replaced(pattern@, replacement@, text@),
        r matches Some(s) ==> (!regex_has_match(pattern@, text@) ==> s@ == text@),
{
    match regex::Regex::new(pattern) {
        Ok(re) => Some(re.replace_all(text, replacement).into_owned()),
        Err(_) => None,
    }
}

/// The pattern matching a proto3 enum read in generated source text.
pub open spec fn spec_enum_read_pattern() -> Seq<char> {
    "::protobuf::rt::read_proto3_enum_with_unknown_fields_into\\(([^,]+), ([^,]+), &mut ([^,]+), [^\\)]+\\)\\?"@
}

/// The guarded reading form that replaces each matched read.
pub open spec fn spec_enum_read_replacement() -> Seq<char> {
    "if $1 == ::protobuf::wire_format::WireTypeVarint {$3 = $2.read_enum()?;} else {return ::std::result::Result::Err(::protobuf::rt::unexpected_wire_type(wire_type));}"@
}

/// Rewrites every proto3 enum read of one generated source file to the
/// older guarded form, leaving all other text alone.  The rewrite succeeds
/// exactly when the fixed pattern is acceptable to the engine — so a result
/// is owed unless that one literal fails to compile — and a text the
/// pattern does not match anywhere comes back unchanged.
pub fn replace_read_unknown_fields(text: &str) -> (r: Option<String>)
    ensures
        (r is Some) == regex_pattern_ok(spec_enum_read_pattern()),
        r matches Some(s) ==> s@ == regex_replaced(
            spec_enum_read_pattern(),
            spec_enum_read_replacement(),
            text@,
        ),
        r matches Some(s) ==> (!regex_has_match(spec_enum_read_pattern(), text@) ==> s@ == text@),
{
    regex_replace_all(
        "::protobuf::rt::read_proto3_enum_with_unknown_fields_into\\(([^,]+), ([^,]+), &mut ([^,]+), [^\\)]+\\)\\?",
        "if $1 == ::protobuf::wire_format::WireTypeVarint {$3 = $2.read_enum()?;} else {return ::std::result::Result::Err(::protobuf::rt::unexpected_wire_type(wire_type));}",
        text,
    )
}

} // verus!
