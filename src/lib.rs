//! Lambert azimuthal equal-area projection parameters, reference ellipsoids and
//! coordinate reference system tags, modelled with exact decimal values.
pub mod crs;
pub mod decimal;
pub mod ellipsoid;
pub mod laea;
pub mod point;
