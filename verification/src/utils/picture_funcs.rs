use vstd::prelude::*;

verus! {

/// A colour in Lab coordinates, as the user enters them: `l` runs from 0
/// (dark) to 100 (light), `a` from -127 (green) to 127 (red) and `b` from
/// -127 (blue) to 127 (yellow).
#[derive(Clone, Copy, Debug, PartialEq, Eq, Structural)]
pub struct LabColor {
    pub l: i8,
    pub a: i8,
    pub b: i8,
}

/// One of the three coordinates of a colour.
#[derive(Clone, Copy, Debug, PartialEq, Eq, Structural)]
pub enum Coordinate {
    L,
    A,
    B,
}

/// `core::num::ParseIntError` of the standard library, the error of
/// `str::parse` for whole numbers. Nothing is known of what it holds.
#[verifier::external_type_specification]
#[verifier::external_body]
pub struct ExParseIntError(core::num::ParseIntError);

/// A colour could not be read: the text of `coordinate` is no number that
/// an `i8` holds, and `cause` is what the reading of that text gave.
#[derive(Debug, PartialEq, Eq)]
pub struct ColorError {
    pub coordinate: Coordinate,
    pub cause: core::num::ParseIntError,
}

/// What is left of `text` once the white space at its start and at its end
/// is taken away.
pub uninterp spec fn trimmed(text: Seq<char>) -> Seq<char>;

/// The number that `text` writes in decimal digits, with or without a sign,
/// if it writes one that an `i8` holds.
pub uninterp spec fn parsed_i8(text: Seq<char>) -> Option<i8>;

/// `str::trim` of the standard library: the result is the part of `text`
/// between its leading and its trailing white space, which depends on
/// nothing but `text`.
#[verifier::external_body]
fn trim(text: &str) -> (r: &str)
    ensures
        r@ == trimmed(text@),
{
    text.trim()
}

/// `str::parse::<i8>` of the standard library: whether `text` is read as a
/// number, and as which, depends on nothing but `text`. Nothing is said of
/// the error.
#[verifier::external_body]
fn parse_i8(text: &str) -> (r: Result<i8, core::num::ParseIntError>)
    ensures
        r.is_ok() <==> parsed_i8(text@).is_some(),
        r.is_ok() ==> Some(r.unwrap()) == parsed_i8(text@),
{
    text.parse::<i8>()
}

/// What a reading gave, without its error.
pub open spec fn number_of(reading: Result<i8, core::num::ParseIntError>) -> Option<i8> {
    match reading {
        Ok(v) => Some(v),
        Err(_) => None,
    }
}

/// The colour of three coordinates that were read, or the first of them
/// that could not be read.
pub open spec fn color_of(l: Option<i8>, a: Option<i8>, b: Option<i8>) -> Result<
    LabColor,
    Coordinate,
> {
    if l.is_none() {
        Err(Coordinate::L)
    } else if a.is_none() {
        Err(Coordinate::A)
    } else if b.is_none() {
        Err(Coordinate::B)
    } else {
        Ok(LabColor { l: l.unwrap(), a: a.unwrap(), b: b.unwrap() })
    }
}

/// The number that `text` writes once the white space around it is taken
/// away.
pub open spec fn coordinate(text: Seq<char>) -> Option<i8> {
    parsed_i8(trimmed(text))
}

/// The colour that three texts write, one for each coordinate, or the first
/// coordinate whose text writes no number.
pub open spec fn color_from(l: Seq<char>, a: Seq<char>, b: Seq<char>) -> Result<
    LabColor,
    Coordinate,
> {
    color_of(coordinate(l), coordinate(a), coordinate(b))
}

/// The colour of three readings, or the first of them that failed, with
/// its error.
pub fn color_from_coordinates(
    l: Result<i8, core::num::ParseIntError>,
    a: Result<i8, core::num::ParseIntError>,
    b: Result<i8, core::num::ParseIntError>,
) -> (r: Result<LabColor, ColorError>)
    ensures
        r.is_ok() <==> l.is_ok() && a.is_ok() && b.is_ok(),
        r.is_ok() ==> r.unwrap() == (LabColor { l: l.unwrap(), a: a.unwrap(), b: b.unwrap() }),
        r.is_err() ==> Err::<LabColor, Coordinate>(r.unwrap_err().coordinate) == color_of(
            number_of(l),
            number_of(a),
            number_of(b),
        ),
        r.is_err() ==> r.unwrap_err().cause == match r.unwrap_err().coordinate {
            Coordinate::L => l.unwrap_err(),
            Coordinate::A => a.unwrap_err(),
            Coordinate::B => b.unwrap_err(),
        },
{
    match l {
        Err(cause) => Err(ColorError { coordinate: Coordinate::L, cause }),
        Ok(ll) => match a {
            Err(cause) => Err(ColorError { coordinate: Coordinate::A, cause }),
            Ok(aa) => match b {
                Err(cause) => Err(ColorError { coordinate: Coordinate::B, cause }),
                Ok(bb) => Ok(LabColor { l: ll, a: aa, b: bb }),
            },
        },
    }
}

fn read_coordinate(text: &str) -> (r: Result<i8, core::num::ParseIntError>)
    ensures
        number_of(r) == coordinate(text@),
{
    parse_i8(trim(text))
}

/// Reads a colour from the three texts of its coordinates. White space
/// around a number is passed over. Where a text writes no number, the error
/// names the first such coordinate and holds what its reading gave.
pub fn get_color_from_strings(l: &String, a: &String, b: &String) -> (r: Result<
    LabColor,
    ColorError,
>)
    ensures
        r.is_ok() <==> color_from(l@, a@, b@).is_ok(),
        r.is_ok() ==> r.unwrap() == color_from(l@, a@, b@).unwrap(),
        r.is_err() ==> r.unwrap_err().coordinate == color_from(l@, a@, b@).unwrap_err(),
{
    color_from_coordinates(
        read_coordinate(l.as_str()),
        read_coordinate(a.as_str()),
        read_coordinate(b.as_str()),
    )
}

} // verus!
