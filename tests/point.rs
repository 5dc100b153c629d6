use geomatic::crs::{Crs3035, Crs4326};
use geomatic::point::point_label;

#[test]
fn point_label_geographic() {
    assert_eq!(point_label::<Crs4326>("50", "5"), "Point(50, 5, srid=4326)");
}

#[test]
fn point_label_projected() {
    assert_eq!(
        point_label::<Crs3035>("3962799.45", "2999718.85"),
        "Point(3962799.45, 2999718.85, srid=3035)"
    );
}

#[test]
fn point_label_empty_coordinates() {
    assert_eq!(point_label::<Crs4326>("", ""), "Point(, , srid=4326)");
}
