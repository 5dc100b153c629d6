//! Reference ellipsoids: shape parameters and the quantities derived from them.
use core::convert::Infallible;
use vstd::prelude::*;

use crate::decimal::{lemma_pow10_18, lemma_pow10_monotone, lemma_pow10_positive, pow10, pow10_exec, Decimal, Ratio};

verus! {

/// Shape of a reference ellipsoid.
#[derive(Copy, Clone, Debug, PartialEq, Eq)]
pub struct EllipsoidParams {
    /// Semi-major axis, in metres.
    pub semi_major_axis: Decimal,
    /// Inverse flattening (1 / f).
    pub f_inv: Decimal,
}

impl EllipsoidParams {
    /// Both parameters are positive decimals.
    pub open spec fn wf(self) -> bool {
        &&& self.semi_major_axis.wf()
        &&& self.f_inv.wf()
        &&& self.semi_major_axis.is_positive()
        &&& self.f_inv.is_positive()
    }

    /// Numerator of the flattening `f = 1 / f_inv`.
    pub open spec fn flattening_num(self) -> int {
        self.f_inv.den()
    }

    /// Denominator of the flattening `f = 1 / f_inv`.
    pub open spec fn flattening_den(self) -> int {
        self.f_inv.num()
    }

    /// Numerator of the squared eccentricity `e^2 = 2f - f^2`, over
    /// `eccentricity_sq_den()`.
    pub open spec fn eccentricity_sq_num(self) -> int {
        2 * self.flattening_num() * self.flattening_den() - self.flattening_num()
            * self.flattening_num()
    }

    /// Denominator of the squared eccentricity.
    pub open spec fn eccentricity_sq_den(self) -> int {
        self.flattening_den() * self.flattening_den()
    }

    /// The eccentricity `e = sqrt(e^2)` is below `n / d` (for `n >= 0`, `d > 0`).
    pub open spec fn eccentricity_lt(self, n: int, d: int) -> bool {
        self.eccentricity_sq_num() * d * d < n * n * self.eccentricity_sq_den()
    }

    /// The eccentricity `e = sqrt(e^2)` is above `n / d` (for `n >= 0`, `d > 0`).
    pub open spec fn eccentricity_gt(self, n: int, d: int) -> bool {
        self.eccentricity_sq_num() * d * d > n * n * self.eccentricity_sq_den()
    }

    /// Whether `wf()` holds, that is, whether the exact quantities below can
    /// be computed.
    pub fn is_valid(&self) -> (r: bool)
        ensures
            r == self.wf(),
    {
        self.semi_major_axis.is_valid() && self.f_inv.is_valid() && self.semi_major_axis.mantissa
            > 0 && self.f_inv.mantissa > 0
    }

    /// The flattening `1 / f_inv`, as an exact ratio.
    pub fn flattening(&self) -> (r: Ratio)
        requires
            self.wf(),
        ensures
            r.wf(),
            r.num == self.flattening_num(),
            r.den == self.flattening_den(),
    {
        Ratio { num: pow10_exec(self.f_inv.scale), den: self.f_inv.mantissa as i128 }
    }

    /// The squared eccentricity `2f - f^2`, as an exact ratio.
    pub fn eccentricity_squared(&self) -> (r: Ratio)
        requires
            self.wf(),
        ensures
            r.wf(),
            r.equals(self.eccentricity_sq_num(), self.eccentricity_sq_den()),
    {
        let f = self.flattening();
        let p = f.num;
        let m = f.den;
        proof {
            lemma_pow10_monotone(self.f_inv.scale as nat, 18);
            lemma_pow10_18();
            lemma_pow10_positive(self.f_inv.scale as nat);
            assert(0 < p * m < 0x1000_0000_0000_0000_0000_0000_0000_0000int) by (nonlinear_arith)
                requires
                    0 < p <= 1_000_000_000_000_000_000int,
                    0 < m < 0x8000_0000_0000_0000int,
            ;
            assert(0 < p * p <= 1_000_000_000_000_000_000_000_000_000_000_000_000int)
                by (nonlinear_arith)
                requires
                    0 < p <= 1_000_000_000_000_000_000int,
            ;
            assert(0 < m * m < 0x4000_0000_0000_0000_0000_0000_0000_0000int) by (nonlinear_arith)
                requires
                    0 < m < 0x8000_0000_0000_0000int,
            ;
        }
        let num = 2 * (p * m) - p * p;
        let den = m * m;
        proof {
            assert(num * self.eccentricity_sq_den() == self.eccentricity_sq_num() * den)
                by (nonlinear_arith)
                requires
                    num == 2 * (p * m) - p * p,
                    den == m * m,
                    self.eccentricity_sq_num() == 2 * p * m - p * p,
                    self.eccentricity_sq_den() == m * m,
            ;
        }
        Ratio { num, den }
    }
}

/// An ellipsoid whose inverse flattening exceeds one has an eccentricity
/// strictly between 0 and 1.
pub proof fn lemma_eccentricity_in_unit_interval(p: EllipsoidParams)
    requires
        p.wf(),
        p.f_inv.num() > p.f_inv.den(),
    ensures
        p.eccentricity_gt(0, 1),
        p.eccentricity_lt(1, 1),
{
    let pp = p.flattening_num();
    let m = p.flattening_den();
    lemma_pow10_positive(p.f_inv.scale as nat);
    assert(0 < 2 * pp * m - pp * pp < m * m) by (nonlinear_arith)
        requires
            0 < pp < m,
    ;
    let n = p.eccentricity_sq_num();
    let d = p.eccentricity_sq_den();
    assert(n * 1 * 1 > 0 * 0 * d && n * 1 * 1 < 1 * 1 * d) by (nonlinear_arith)
        requires
            n == 2 * pp * m - pp * pp,
            d == m * m,
            0 < 2 * pp * m - pp * pp < m * m,
    ;
}

/// A named reference ellipsoid.
pub trait Ellipsoid {
    /// The ellipsoid's parameters.
    spec fn spec_params() -> EllipsoidParams;

    fn params() -> (r: EllipsoidParams)
        ensures
            r == Self::spec_params(),
            r.wf(),
    ;
}

/// Marker for the World Geodetic System 1984 ellipsoid: a type-level tag
/// with no values.
#[derive(Copy, Clone, Debug)]
pub enum WGS84 {
    Never(Infallible),
}

impl Ellipsoid for WGS84 {
    open spec fn spec_params() -> EllipsoidParams {
        EllipsoidParams {
            semi_major_axis: Decimal { mantissa: 6378137, scale: 0 },
            f_inv: Decimal { mantissa: 298257223563, scale: 9 },
        }
    }

    fn params() -> (r: EllipsoidParams) {
        EllipsoidParams {
            semi_major_axis: Decimal { mantissa: 6378137, scale: 0 },
            f_inv: Decimal { mantissa: 298257223563, scale: 9 },
        }
    }
}

/// Marker for the Geodetic Reference System 1980 ellipsoid: a type-level tag
/// with no values.
#[derive(Copy, Clone, Debug)]
pub enum GRS1980 {
    Never(Infallible),
}

impl Ellipsoid for GRS1980 {
    open spec fn spec_params() -> EllipsoidParams {
        EllipsoidParams {
            semi_major_axis: Decimal { mantissa: 6378137, scale: 0 },
            f_inv: Decimal { mantissa: 2982572221008827, scale: 13 },
        }
    }

    fn params() -> (r: EllipsoidParams) {
        EllipsoidParams {
            semi_major_axis: Decimal { mantissa: 6378137, scale: 0 },
            f_inv: Decimal { mantissa: 2982572221008827, scale: 13 },
        }
    }
}

proof fn lemma_wgs84_eccentricity_sq()
    ensures
        WGS84::spec_params().eccentricity_sq_num() == 595514447126000000000int,
        WGS84::spec_params().eccentricity_sq_den() == 88957371407509362414969int,
{
    reveal_with_fuel(pow10, 10);
    assert(pow10(9) == 1_000_000_000int);
}

proof fn lemma_grs1980_eccentricity_sq()
    ensures
        GRS1980::spec_params().eccentricity_sq_num() == 59551444420176540000000000000int,
        GRS1980::spec_params().eccentricity_sq_den() == 8895737053533527170989611915929int,
{
    reveal_with_fuel(pow10, 14);
    assert(pow10(13) == 10_000_000_000_000int);
}

/// The eccentricity of WGS84 is 0.08181919084262 and that of GRS1980 is
/// 0.0818191910435, each to within 10^-12.
pub proof fn lemma_eccentricity_values()
    ensures
        WGS84::spec_params().eccentricity_gt(8181919084261, 100_000_000_000_000),
        WGS84::spec_params().eccentricity_lt(8181919084263, 100_000_000_000_000),
        GRS1980::spec_params().eccentricity_gt(818191910425, 10_000_000_000_000),
        GRS1980::spec_params().eccentricity_lt(818191910445, 10_000_000_000_000),
{
    lemma_wgs84_eccentricity_sq();
    lemma_grs1980_eccentricity_sq();
}

/// The eccentricities of WGS84 and GRS1980 both lie strictly between 0 and 1,
/// and differ by more than 10^-12: some cut `c` has the WGS84 value below `c`
/// and the GRS1980 value above `c + 10^-12`.
pub proof fn lemma_eccentricities_distinct()
    ensures
        WGS84::spec_params().eccentricity_gt(0, 1),
        WGS84::spec_params().eccentricity_lt(1, 1),
        GRS1980::spec_params().eccentricity_gt(0, 1),
        GRS1980::spec_params().eccentricity_lt(1, 1),
        exists|c: int|
            0 <= c && #[trigger] WGS84::spec_params().eccentricity_lt(c, 1_000_000_000_000_000)
                && GRS1980::spec_params().eccentricity_gt(c + 1000, 1_000_000_000_000_000),
{
    lemma_wgs84_eccentricity_sq();
    lemma_grs1980_eccentricity_sq();
    let c: int = 81819190842630;
    assert(WGS84::spec_params().eccentricity_lt(c, 1_000_000_000_000_000));
    assert(GRS1980::spec_params().eccentricity_gt(c + 1000, 1_000_000_000_000_000));
}

} // verus!
