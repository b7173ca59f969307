use drone_follow::{
    color_from_coordinates, get_color_from_strings, ColorError, Coordinate, LabColor,
};

fn read(l: &str, a: &str, b: &str) -> Result<LabColor, ColorError> {
    get_color_from_strings(&l.to_string(), &a.to_string(), &b.to_string())
}

fn failing(text: &str) -> std::num::ParseIntError {
    text.parse::<i8>().unwrap_err()
}

#[test]
fn colour_is_read_from_three_numbers() {
    assert_eq!(read("0", "20", "-127"), Ok(LabColor { l: 0, a: 20, b: -127 }));
    assert_eq!(read("80", "+127", "-20"), Ok(LabColor { l: 80, a: 127, b: -20 }));
    assert_eq!(read("-128", "127", "0"), Ok(LabColor { l: -128, a: 127, b: 0 }));
}

#[test]
fn white_space_around_a_number_is_passed_over() {
    assert_eq!(read(" 12", "7 ", "\t-3\n"), Ok(LabColor { l: 12, a: 7, b: -3 }));
}

#[test]
fn first_unreadable_coordinate_is_named() {
    assert_eq!(read("", "1", "2").unwrap_err().coordinate, Coordinate::L);
    assert_eq!(read("x", "y", "z").unwrap_err().coordinate, Coordinate::L);
    assert_eq!(read("1", "1.5", "z").unwrap_err().coordinate, Coordinate::A);
    assert_eq!(read("1", "2", "128").unwrap_err().coordinate, Coordinate::B);
    assert_eq!(read("1", "2", "-129").unwrap_err().coordinate, Coordinate::B);
    assert_eq!(read("1", "2", "1 2").unwrap_err().coordinate, Coordinate::B);
}

#[test]
fn error_holds_what_the_reading_gave() {
    assert_eq!(
        read(" ", "1", "2"),
        Err(ColorError { coordinate: Coordinate::L, cause: failing("") })
    );
    assert_eq!(
        read("1", " x ", "300"),
        Err(ColorError { coordinate: Coordinate::A, cause: failing("x") })
    );
    assert_eq!(
        read("1", "2", "300 "),
        Err(ColorError { coordinate: Coordinate::B, cause: failing("300") })
    );
    assert_ne!(failing(""), failing("x"));
    assert_ne!(failing("x"), failing("300"));
}

#[test]
fn colour_of_three_readings() {
    let ok = |v: i8| -> Result<i8, std::num::ParseIntError> { Ok(v) };
    assert_eq!(color_from_coordinates(ok(1), ok(-2), ok(3)), Ok(LabColor { l: 1, a: -2, b: 3 }));
    assert_eq!(
        color_from_coordinates(Err(failing("")), Err(failing("x")), Err(failing("300"))),
        Err(ColorError { coordinate: Coordinate::L, cause: failing("") })
    );
    assert_eq!(
        color_from_coordinates(ok(1), Err(failing("x")), Err(failing("300"))),
        Err(ColorError { coordinate: Coordinate::A, cause: failing("x") })
    );
    assert_eq!(
        color_from_coordinates(ok(1), ok(2), Err(failing("300"))),
        Err(ColorError { coordinate: Coordinate::B, cause: failing("300") })
    );
}
