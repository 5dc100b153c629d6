//! Coordinate reference system tags.
use core::convert::Infallible;
use vstd::prelude::*;

use crate::decimal::Decimal;
use crate::ellipsoid::{Ellipsoid, GRS1980};
use crate::laea::LaeaParams;

verus! {

/// A coordinate reference system, identified at the type level.
pub trait Crs {
    /// Registry code of the system, if it has one.
    spec fn spec_srid() -> Option<u32>;

    fn srid() -> (r: Option<u32>)
        ensures
            r == Self::spec_srid(),
    ;
}

/// A coordinate reference system projected with Lambert azimuthal equal-area
/// on a given ellipsoid.
pub trait CrsLaea: Crs {
    type Ellipsoid: Ellipsoid;

    /// The projection's parameters.
    spec fn spec_params() -> LaeaParams;

    fn params() -> (r: LaeaParams)
        ensures
            r == Self::spec_params(),
            r.wf(),
    ;
}

/// Marker for geographic coordinates on WGS84 (EPSG:4326): a type-level tag
/// with no values.
#[derive(Copy, Clone, Debug)]
pub enum Crs4326 {
    Never(Infallible),
}

impl Crs for Crs4326 {
    open spec fn spec_srid() -> Option<u32> {
        Some(4326)
    }

    fn srid() -> (r: Option<u32>) {
        Some(4326)
    }
}

/// Marker for ETRS89 / LAEA Europe (EPSG:3035): a type-level tag with no
/// values. Centre 52N 10E, false origin (4321000, 3210000), on GRS1980.
#[derive(Copy, Clone, Debug)]
pub enum Crs3035 {
    Never(Infallible),
}

impl Crs for Crs3035 {
    open spec fn spec_srid() -> Option<u32> {
        Some(3035)
    }

    fn srid() -> (r: Option<u32>) {
        Some(3035)
    }
}

impl CrsLaea for Crs3035 {
    type Ellipsoid = GRS1980;

    open spec fn spec_params() -> LaeaParams {
        LaeaParams {
            center_lat: Decimal { mantissa: 52, scale: 0 },
            center_lon: Decimal { mantissa: 10, scale: 0 },
            false_easting: Decimal { mantissa: 4321000, scale: 0 },
            false_northing: Decimal { mantissa: 3210000, scale: 0 },
        }
    }

    fn params() -> (r: LaeaParams) {
        LaeaParams {
            center_lat: Decimal { mantissa: 52, scale: 0 },
            center_lon: Decimal { mantissa: 10, scale: 0 },
            false_easting: Decimal { mantissa: 4321000, scale: 0 },
            false_northing: Decimal { mantissa: 3210000, scale: 0 },
        }
    }
}

} // verus!

verus! {

/// The decimal digit character for `d` in `0..10`.
pub open spec fn digit_char(d: int) -> char {
    seq!['0', '1', '2', '3', '4', '5', '6', '7', '8', '9'][d]
}

/// The decimal representation of `n`, without leading zeros.
pub open spec fn decimal_text(n: nat) -> Seq<char>
    decreases n,
{
    if n < 10 {
        seq![digit_char(n as int)]
    } else {
        decimal_text(n / 10).push(digit_char((n % 10) as int))
    }
}

/// The text that stands for a registry code: its decimal digits, or `unknown`.
pub open spec fn srid_text(srid: Option<u32>) -> Seq<char> {
    match srid {
        Some(code) => decimal_text(code as nat),
        None => seq!['u', 'n', 'k', 'n', 'o', 'w', 'n'],
    }
}

fn digit_str(d: u32) -> (r: &'static str)
    requires
        d < 10,
    ensures
        r@ == seq![digit_char(d as int)],
{
    if d == 0 {
        proof { reveal_strlit("0"); }
        "0"
    } else if d == 1 {
        proof { reveal_strlit("1"); }
        "1"
    } else if d == 2 {
        proof { reveal_strlit("2"); }
        "2"
    } else if d == 3 {
        proof { reveal_strlit("3"); }
        "3"
    } else if d == 4 {
        proof { reveal_strlit("4"); }
        "4"
    } else if d == 5 {
        proof { reveal_strlit("5"); }
        "5"
    } else if d == 6 {
        proof { reveal_strlit("6"); }
        "6"
    } else if d == 7 {
        proof { reveal_strlit("7"); }
        "7"
    } else if d == 8 {
        proof { reveal_strlit("8"); }
        "8"
    } else {
        proof { reveal_strlit("9"); }
        "9"
    }
}

fn push_decimal(s: &mut String, n: u32)
    ensures
        final(s)@ == old(s)@ + decimal_text(n as nat),
    decreases n,
{
    if n >= 10 {
        push_decimal(s, n / 10);
    }
    s.append(digit_str(n % 10));
    proof {
        if n >= 10 {
            assert(decimal_text(n as nat) == decimal_text((n / 10) as nat).push(
                digit_char((n % 10) as int),
            ));
        }
    }
}

/// Renders a registry code for display: its decimal digits, or `unknown`
/// where the system has none.
pub fn srid_label(srid: Option<u32>) -> (r: String)
    ensures
        r@ == srid_text(srid),
{
    match srid {
        Some(code) => {
            let mut s = String::new();
            push_decimal(&mut s, code);
            s
        },
        None => {
            proof { reveal_strlit("unknown"); }
            String::from_str("unknown")
        },
    }
}

/// The display label of the registry code of the system `C`.
pub fn crs_label<C: Crs>() -> (r: String)
    ensures
        r@ == srid_text(C::spec_srid()),
{
    srid_label(C::srid())
}

} // verus!
