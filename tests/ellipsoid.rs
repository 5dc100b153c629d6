use geomatic::decimal::Ratio;
use geomatic::ellipsoid::{Ellipsoid, EllipsoidParams, GRS1980, WGS84};

fn eccentricity_of(p: &EllipsoidParams) -> f64 {
    let r = p.eccentricity_squared();
    (r.num as f64 / r.den as f64).sqrt()
}

fn approx_eq(a: f64, b: f64, eps: f64) -> bool {
    (a - b).abs() < eps
}

#[test]
fn eccentricity() {
    let w = eccentricity_of(&WGS84::params());
    let g = eccentricity_of(&GRS1980::params());
    assert!(approx_eq(w, 0.08181919084262, 1e-12));
    assert!(approx_eq(g, 0.0818191910435, 1e-12));
    assert!(!approx_eq(w, g, 1e-12));
}

#[test]
fn eccentricity_in_unit_interval() {
    for p in [WGS84::params(), GRS1980::params()] {
        let r = p.eccentricity_squared();
        assert!(r.den > 0);
        assert!(r.num > 0);
        assert!(r.num < r.den);
    }
}

#[test]
fn eccentricity_squared_exact() {
    let r = WGS84::params().eccentricity_squared();
    assert_eq!(r, Ratio { num: 595514447126000000000, den: 88957371407509362414969 });
    let r = GRS1980::params().eccentricity_squared();
    assert_eq!(r.num, 59551444420176540000000000000);
    assert_eq!(r.den, 8895737053533527170989611915929);
}

#[test]
fn flattening_is_reciprocal_of_inverse_flattening() {
    let f = WGS84::params().flattening();
    assert_eq!(f, Ratio { num: 1_000_000_000, den: 298257223563 });
    let f = GRS1980::params().flattening();
    assert_eq!(f, Ratio { num: 10_000_000_000_000, den: 2982572221008827 });
    assert!(approx_eq(f.num as f64 / f.den as f64, 1.0 / 298.2572221008827, 1e-18));
}

#[test]
fn named_ellipsoid_parameters() {
    let w = WGS84::params();
    assert_eq!(w.semi_major_axis.mantissa, 6378137);
    assert_eq!(w.semi_major_axis.scale, 0);
    assert_eq!(w.f_inv.mantissa, 298257223563);
    assert_eq!(w.f_inv.scale, 9);
    let g = GRS1980::params();
    assert_eq!(g.semi_major_axis, w.semi_major_axis);
    assert_eq!(g.f_inv.mantissa, 2982572221008827);
    assert_eq!(g.f_inv.scale, 13);
    assert!(w.is_valid());
    assert!(g.is_valid());
}

#[test]
fn invalid_ellipsoid_parameters() {
    let mut p = WGS84::params();
    p.f_inv.mantissa = 0;
    assert!(!p.is_valid());
    let mut p = WGS84::params();
    p.semi_major_axis.mantissa = -1;
    assert!(!p.is_valid());
    let mut p = WGS84::params();
    p.f_inv.scale = 19;
    assert!(!p.is_valid());
}

#[test]
fn sphere_has_zero_eccentricity_limit() {
    // f_inv = 1: flattening 1, e^2 = 2 - 1 = 1.
    let mut p = WGS84::params();
    p.f_inv.mantissa = 1;
    p.f_inv.scale = 0;
    let r = p.eccentricity_squared();
    assert_eq!(r.num, r.den);
    // f_inv = 0.5: flattening 2, e^2 = 4 - 4 = 0.
    p.f_inv.mantissa = 5;
    p.f_inv.scale = 1;
    let r = p.eccentricity_squared();
    assert_eq!(r.num, 0);
}
