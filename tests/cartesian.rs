use mayara_radar::cartesian::{PointInt, PolarToCartesianLookup};

fn sample() -> PolarToCartesianLookup {
    let mut points = Vec::new();
    for a in 0..4i16 {
        for r in 0..3i16 {
            points.push(PointInt { x: a * 10 + r, y: -r });
        }
    }
    PolarToCartesianLookup::from_table(4, 3, points).unwrap()
}

#[test]
fn lookup_by_angle_and_radius() {
    let l = sample();
    assert_eq!(l.spokes_per_revolution(), 4);
    assert_eq!(l.spoke_len(), 3);
    assert_eq!(l.get_point_int(2, 1), Some(PointInt { x: 21, y: -1 }));
    assert_eq!(l.get_point_int(3, 2), Some(PointInt { x: 32, y: -2 }));
}

#[test]
fn angle_wraps() {
    let l = sample();
    for r in 0..3 {
        assert_eq!(l.get_point_int(4, r), l.get_point_int(0, r));
    }
    assert_eq!(l.get_point_int(9, 0), l.get_point_int(1, 0));
    assert_eq!(l.get_point_int(usize::MAX, 1), l.get_point_int(3, 1));
}

#[test]
fn radius_past_spoke_is_none() {
    let l = sample();
    assert_eq!(l.get_point_int(0, 3), None);
}

#[test]
fn table_of_wrong_size_is_refused() {
    assert!(PolarToCartesianLookup::from_table(2, 2, vec![PointInt { x: 0, y: 0 }; 3]).is_none());
    assert!(PolarToCartesianLookup::from_table(usize::MAX, 2, Vec::new()).is_none());
    let empty = PolarToCartesianLookup::from_table(0, 5, Vec::new()).unwrap();
    assert_eq!(empty.get_point_int(0, 0), None);
}
