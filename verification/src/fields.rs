//! Parsing a flat token sequence into an ordered field list.
//!
//! Tokens are consumed in non-overlapping pairs, left to right; an
//! unpaired trailing token becomes a field whose type defaults to the
//! generic string type.

use vstd::prelude::*;

verus! {

/// The type given to an unpaired trailing token.
pub open spec fn default_type() -> Seq<char> {
    "String"@
}

/// The field that position `i` of the parsed field list holds, as a
/// (name, type) pair of character sequences.
pub open spec fn parsed_field(args: Seq<Seq<char>>, i: int) -> (Seq<char>, Seq<char>)
    recommends
        0 <= i,
        2 * i < args.len(),
{
    if 2 * i + 1 < args.len() {
        (args[2 * i], args[2 * i + 1])
    } else {
        (args[2 * i], default_type())
    }
}

/// Turns a flat token sequence into an ordered list of (name, type)
/// fields: tokens pair up left to right, and an odd trailing token is
/// paired with the default string type. Any string is accepted; order
/// is preserved.
pub fn parse_fields(args: &[String]) -> (fields: Vec<(String, String)>)
    ensures
        fields.deep_view().len() == (args.deep_view().len() + 1) / 2,
        forall|i: int|
            0 <= i < fields.deep_view().len() ==> fields.deep_view()[i] == parsed_field(
                args.deep_view(),
                i,
            ),
{
    let n = args.len();
    let mut fields: Vec<(String, String)> = Vec::new();
    let mut i: usize = 0;
    while i + 1 < n
        invariant
            n == args.deep_view().len(),
            i % 2 == 0,
            i <= n,
            fields.deep_view().len() == i / 2,
            forall|k: int|
                0 <= k < fields.deep_view().len() ==> fields.deep_view()[k] == parsed_field(
                    args.deep_view(),
                    k,
                ),
        decreases n - i,
    {
        let name = args[i].clone();
        let ty = args[i + 1].clone();
        fields.push((name, ty));
        i = i + 2;
    }
    if i < n {
        let name = args[i].clone();
        fields.push((name, String::from_str("String")));
    }
    fields
}

} // verus!
