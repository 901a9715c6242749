use mavis_lib::region::DisplayArea;

#[test]
fn from_points_ignores_corner_order() {
    let a = DisplayArea::from_points(5, 5, 1, 1);
    let b = DisplayArea::from_points(1, 1, 5, 5);
    assert_eq!(a, b);
    assert_eq!(a.get_points(), ((1, 1), (5, 5)));
    assert_eq!(a.get_rectangle(), b.get_rectangle());
    assert_eq!(a.get_rectangle(), ((1, 1), (4, 4)));
}

#[test]
fn from_points_mixes_corners() {
    let a = DisplayArea::from_points(5, 1, 1, 5);
    assert_eq!(a.get_points(), ((1, 1), (5, 5)));
    let b = DisplayArea::from_points(-7, 9, 3, -2);
    assert_eq!(b.get_points(), ((-7, -2), (3, 9)));
    assert_eq!(b.get_rectangle(), ((-7, -2), (10, 11)));
}

#[test]
fn from_relative_translates_by_parent_origin() {
    let inner = DisplayArea::from_points(2, 3, 4, 5);
    let parent = DisplayArea::from_rectangle(100, 100, 50, 60);
    assert!(inner.fits_relative(&parent));
    let absolute = inner.from_relative(&parent);
    assert_eq!(absolute.get_points(), ((102, 103), (104, 105)));
    assert_eq!(absolute.get_rectangle().1, inner.get_rectangle().1);
}

#[test]
fn from_relative_with_negative_origin() {
    let inner = DisplayArea::from_rectangle(10, 20, 30, 40);
    let parent = DisplayArea::from_points(-100, -50, 0, 0);
    let absolute = inner.from_relative(&parent);
    assert_eq!(absolute.get_points(), ((-90, -30), (-60, 10)));
}

#[test]
fn fits_relative_sees_the_edge_of_the_coordinates() {
    let inner = DisplayArea::from_points(0, 0, 10, 10);
    let near = DisplayArea::from_points(i32::MAX - 10, 0, i32::MAX, 0);
    let far = DisplayArea::from_points(i32::MAX - 9, 0, i32::MAX, 0);
    assert!(inner.fits_relative(&near));
    assert!(!inner.fits_relative(&far));
    let low = DisplayArea::from_points(-5, -5, 0, 0);
    let bottom = DisplayArea::from_points(i32::MIN, i32::MIN + 5, 0, 0);
    assert!(!low.fits_relative(&bottom));
}

#[test]
fn from_rectangle_adds_the_size() {
    let a = DisplayArea::from_rectangle(960, 540, 960, 540);
    assert_eq!(a.get_points(), ((960, 540), (1920, 1080)));
    assert_eq!(a.get_rectangle(), ((960, 540), (960, 540)));
    let b = DisplayArea::from_rectangle(-5, -6, 0, 11);
    assert_eq!(b.get_points(), ((-5, -6), (-5, 5)));
    let c = DisplayArea::from_rectangle(i32::MIN, 0, u32::MAX, 0);
    assert_eq!(c.get_points(), ((i32::MIN, 0), (i32::MAX, 0)));
    assert_eq!(c.get_rectangle(), ((i32::MIN, 0), (u32::MAX, 0)));
}

#[test]
fn average_point_truncates_toward_zero() {
    assert_eq!(DisplayArea::from_points(0, 0, 3, 5).get_average_point(), (1, 2));
    assert_eq!(DisplayArea::from_points(-3, -5, 0, 0).get_average_point(), (-1, -2));
    assert_eq!(DisplayArea::from_points(-3, 2, 2, 3).get_average_point(), (0, 2));
    assert_eq!(DisplayArea::from_points(200, 0, 1920, 1080).get_average_point(), (1060, 540));
}

#[test]
fn average_point_of_extreme_corners() {
    let a = DisplayArea::from_points(i32::MAX, i32::MAX, i32::MAX - 1, i32::MAX);
    assert_eq!(a.get_average_point(), (i32::MAX - 1, i32::MAX));
    let b = DisplayArea::from_points(i32::MIN, i32::MIN, i32::MIN + 1, i32::MAX);
    assert_eq!(b.get_average_point(), (i32::MIN + 1, 0));
}

#[test]
fn degenerate_area_has_its_point_as_center() {
    let a = DisplayArea::from_rectangle(7, -9, 0, 0);
    assert_eq!(a.get_rectangle(), ((7, -9), (0, 0)));
    assert_eq!(a.get_average_point(), (7, -9));
}

#[test]
fn nested_areas_compose_consistently() {
    let inner = DisplayArea::from_points(2, 3, 4, 5);
    let parent = DisplayArea::from_rectangle(10, 20, 100, 100);
    let grandparent = DisplayArea::from_rectangle(-300, 400, 1000, 1000);
    let stepwise = inner.from_relative(&parent).from_relative(&grandparent);
    let at_once = inner.from_relative(&parent.from_relative(&grandparent));
    assert_eq!(stepwise, at_once);
    assert_eq!(stepwise.get_points(), ((-288, 423), (-286, 425)));
}
