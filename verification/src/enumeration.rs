//! Strict enumeration semantics.
//!
//! Emitted accessors store an enumeration field as its integer encoding and
//! decode it on access; decoding an integer with no matching named variant
//! is fatal at the point of use rather than defaulted.  This module states
//! that semantics over the parsed variant lists.

use vstd::prelude::*;

use crate::model::{EnumDecl, VariantV};

verus! {

/// The first variant index carrying `value`, searching from `i`.
pub open spec fn spec_decode_from(vars: Seq<VariantV>, value: int, i: int) -> Option<int>
    decreases vars.len() - i,
{
    if i < 0 || i >= vars.len() {
        None
    } else if vars[i].number == value {
        Some(i)
    } else {
        spec_decode_from(vars, value, i + 1)
    }
}

/// The first variant index carrying `value`, if any.
pub open spec fn spec_decode(vars: Seq<VariantV>, value: int) -> Option<int> {
    spec_decode_from(vars, value, 0)
}

/// No two variants share a number.
pub open spec fn spec_numbers_unique(vars: Seq<VariantV>) -> bool {
    forall|a: int, b: int|
        0 <= a < b < vars.len() ==> #[trigger] vars[a].number != #[trigger] vars[b].number
}

/// Encodes a variant to the integer the generated code stores.
pub fn encode_variant(e: &EnumDecl, idx: usize) -> (r: i32)
    requires
        idx < e.variants@.len(),
    ensures
        r as int == e.deep_view().variants[idx as int].number,
{
    proof {
        assert(e.variants[idx as int].deep_view() == e.variants.deep_view()[idx as int]);
    }
    e.variants[idx].number
}

/// Decodes a stored integer to the first variant carrying it.  `None`
/// means no variant matches: the emitted accessor is fatal exactly there.
pub fn decode_variant(e: &EnumDecl, value: i32) -> (r: Option<usize>)
    ensures
        (match r {
            Some(i) => i < e.variants@.len() && spec_decode(e.deep_view().variants, value as int)
                == Some(i as int),
            None => spec_decode(e.deep_view().variants, value as int) is None,
        }),
{
    let ghost vv = e.deep_view().variants;
    let mut i: usize = 0;
    while i < e.variants.len()
        invariant
            vv == e.variants.deep_view(),
            vv.len() == e.variants@.len(),
            i <= e.variants@.len(),
            spec_decode(vv, value as int) == spec_decode_from(vv, value as int, i as int),
        decreases e.variants@.len() - i,
    {
        proof {
            assert(e.variants[i as int].deep_view() == vv[i as int]);
        }
        if e.variants[i].number == value {
            return Some(i);
        }
        i = i + 1;
    }
    None
}

/// Helper: the first match at or past `i` of the number carried at `idx`
/// is `idx` itself, when numbers are unique.
proof fn lemma_decode_finds(vars: Seq<VariantV>, idx: int, i: int)
    requires
        spec_numbers_unique(vars),
        0 <= i <= idx < vars.len(),
    ensures
        spec_decode_from(vars, vars[idx].number, i) == Some(idx),
    decreases idx - i,
{
    if i < idx {
        assert(vars[i].number != vars[idx].number);
        lemma_decode_finds(vars, idx, i + 1);
    }
}

/// Enumeration round-trip: when variant numbers are unique, decoding the
/// encoding of any valid variant yields that variant back.
///
/// Uniqueness is what Rust itself guarantees of a compilable enum, but the
/// loader accepts any text, and a declaration repeating a discriminant
/// (`A = 1, B = 1`) decodes every repeated number to its first carrier —
/// so the law is stated only for the lists where it holds.
pub proof fn lemma_enumeration_round_trip(vars: Seq<VariantV>, idx: int)
    requires
        spec_numbers_unique(vars),
        0 <= idx < vars.len(),
    ensures
        spec_decode(vars, vars[idx].number) == Some(idx),
{
    lemma_decode_finds(vars, idx, 0);
}

} // verus!
