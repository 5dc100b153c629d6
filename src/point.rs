//! Textual form of a point tagged with a coordinate reference system.
use vstd::prelude::*;

use crate::crs::{crs_label, srid_text, Crs};

verus! {

/// `Point(<c0>, <c1>, srid=<code or unknown>)`, where `c0` and `c1` are the
/// rendered coordinates.
pub open spec fn point_text(c0: Seq<char>, c1: Seq<char>, srid: Option<u32>) -> Seq<char> {
    seq!['P', 'o', 'i', 'n', 't', '('] + c0 + seq![',', ' '] + c1 + seq![
        ',',
        ' ',
        's',
        'r',
        'i',
        'd',
        '=',
    ] + srid_text(srid) + seq![')']
}

/// Renders a point of the system `C` from its two rendered coordinates.
pub fn point_label<C: Crs>(c0: &str, c1: &str) -> (r: String)
    ensures
        r@ == point_text(c0@, c1@, C::spec_srid()),
{
    proof {
        reveal_strlit("Point(");
        reveal_strlit(", ");
        reveal_strlit(", srid=");
        reveal_strlit(")");
    }
    let mut s = String::from_str("Point(");
    s.append(c0);
    s.append(", ");
    s.append(c1);
    s.append(", srid=");
    let label = crs_label::<C>();
    s.append(label.as_str());
    s.append(")");
    s
}

} // verus!
