//! Parameters of one instance of the Lambert azimuthal equal-area projection.
use vstd::prelude::*;

use crate::decimal::Decimal;

verus! {

/// Centre and false origin of a Lambert azimuthal equal-area projection.
#[derive(Copy, Clone, Debug, PartialEq, Eq)]
pub struct LaeaParams {
    /// Latitude of the projection centre, in degrees.
    pub center_lat: Decimal,
    /// Longitude of the projection centre, in degrees.
    pub center_lon: Decimal,
    /// Easting of the false origin, in metres.
    pub false_easting: Decimal,
    /// Northing of the false origin, in metres.
    pub false_northing: Decimal,
}

impl LaeaParams {
    /// The centre is a point of the globe: latitude in [-90, 90], longitude in
    /// [-180, 180].
    pub open spec fn wf(self) -> bool {
        &&& self.center_lat.wf()
        &&& self.center_lon.wf()
        &&& self.false_easting.wf()
        &&& self.false_northing.wf()
        &&& self.center_lat.within(-90, 90)
        &&& self.center_lon.within(-180, 180)
    }
}

} // verus!
