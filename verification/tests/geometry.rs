use drone_follow::{GeometricPoint, ImagePoint, PointConverter};

#[test]
fn point_should_map_to_0_0() {
    let sut = PointConverter::new(640, 480);
    let pixel = sut.to_pixel(&GeometricPoint::new(-320, 240));
    assert_eq!(pixel, ImagePoint::new(0, 0));
}

#[test]
fn point_should_map_to_640_480() {
    let sut = PointConverter::new(640, 480);
    let pixel = sut.to_pixel(&GeometricPoint::new(320, -240));
    assert_eq!(pixel, ImagePoint::new(640, 480));
}

#[test]
fn point_should_map_to_320_239() {
    let sut = PointConverter::new(640, 480);
    let pixel = sut.to_pixel(&GeometricPoint::new(0, 1));
    assert_eq!(pixel, ImagePoint::new(320, 239));
}

#[test]
fn pixel_should_map_to_m320_240() {
    let sut = PointConverter::new(640, 480);
    let point = sut.from_pixel(&ImagePoint::new(0, 0));
    assert_eq!(point, GeometricPoint::new(-320, 240));
}

#[test]
fn pixel_should_map_to_320_m240() {
    let sut = PointConverter::new(640, 480);
    let point = sut.from_pixel(&ImagePoint::new(640, 480));
    assert_eq!(point, GeometricPoint::new(320, -240));
}

#[test]
fn centre_of_the_frame_shows_the_observer() {
    let sut = PointConverter::new(640, 360);
    assert_eq!(sut.get_center(), GeometricPoint::new(0, 0));
    assert_eq!(sut.to_pixel(&sut.get_center()), ImagePoint::new(320, 180));
    assert_eq!(sut.width(), 640);
    assert_eq!(sut.height(), 360);
}

#[test]
fn odd_sides_round_the_centre_down() {
    let sut = PointConverter::new(641, 361);
    assert_eq!(sut.to_pixel(&GeometricPoint::new(0, 0)), ImagePoint::new(320, 180));
}

#[test]
fn target_of_the_first_frame() {
    let sut = PointConverter::new(640, 360);
    assert_eq!(sut.to_pixel(&GeometricPoint::new(30, 45)), ImagePoint::new(350, 135));
}

#[test]
fn conversion_can_be_undone() {
    let sut = PointConverter::new(640, 360);
    for x in [-5000, -321, -320, -1, 0, 1, 319, 320, 70000] {
        for y in [-70000, -180, -179, 0, 1, 180, 181, 5000] {
            let point = GeometricPoint::new(x, y);
            assert_eq!(sut.from_pixel(&sut.to_pixel(&point)), point);
        }
    }
    for column in [0, 1, 320, 639] {
        for row in [0, 1, 180, 359] {
            let pixel = ImagePoint::new(column, row);
            assert_eq!(sut.to_pixel(&sut.from_pixel(&pixel)), pixel);
        }
    }
}

#[test]
fn frame_holds_its_own_pixels_only() {
    let sut = PointConverter::new(640, 360);
    assert!(sut.contains(&ImagePoint::new(0, 0)));
    assert!(sut.contains(&ImagePoint::new(639, 359)));
    assert!(!sut.contains(&ImagePoint::new(640, 0)));
    assert!(!sut.contains(&ImagePoint::new(0, 360)));
    assert!(!sut.contains(&ImagePoint::new(-1, 10)));
    assert!(!sut.contains(&ImagePoint::new(10, -1)));
}

#[test]
fn points_beyond_the_frame_are_clipped() {
    let sut = PointConverter::new(640, 360);
    assert!(sut.contains(&sut.to_pixel(&GeometricPoint::new(-320, 180))));
    assert!(!sut.contains(&sut.to_pixel(&GeometricPoint::new(320, 0))));
    assert!(!sut.contains(&sut.to_pixel(&GeometricPoint::new(0, 181))));
    assert!(!sut.contains(&sut.to_pixel(&GeometricPoint::new(0, -180))));
}

#[test]
fn coordinates_stop_at_the_bounds_of_i32() {
    let sut = PointConverter::new(640, 360);
    let far = sut.to_pixel(&GeometricPoint::new(i32::MAX, i32::MIN));
    assert_eq!(far, ImagePoint::new(i32::MAX, i32::MAX));
    assert!(!sut.contains(&far));
    let back = sut.from_pixel(&ImagePoint::new(i32::MIN, i32::MIN));
    assert_eq!(back, GeometricPoint::new(i32::MIN, i32::MAX));
}

#[test]
fn frame_of_no_pixels_shows_nothing() {
    let sut = PointConverter::new(0, 0);
    assert_eq!(sut.to_pixel(&GeometricPoint::new(0, 0)), ImagePoint::new(0, 0));
    assert!(!sut.contains(&ImagePoint::new(0, 0)));
}

#[test]
fn offset_moves_a_point() {
    let point = GeometricPoint::new(30, 45);
    assert_eq!(point.offset(22, 0), GeometricPoint::new(52, 45));
    assert_eq!(point.offset(-15, 16), GeometricPoint::new(15, 61));
    assert_eq!(
        GeometricPoint::new(i32::MAX, i32::MIN).offset(1, -1),
        GeometricPoint::new(i32::MAX, i32::MIN)
    );
}
