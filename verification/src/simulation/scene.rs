use crate::geometry::{GeometricPoint, ImagePoint};
use vstd::prelude::*;

verus! {

/// A colour of the camera frame, channel by channel in the order in which a
/// frame stores them.
#[derive(Clone, Copy, Debug, PartialEq, Eq, Structural)]
pub struct Color {
    pub blue: u8,
    pub green: u8,
    pub red: u8,
}

/// A filled disc to be painted into the camera frame. Whatever part of it
/// lies outside the frame is lost without notice.
#[derive(Clone, Copy, Debug, PartialEq, Eq, Structural)]
pub struct Marker {
    pub center: ImagePoint,
    pub radius: i32,
    pub color: Color,
}

/// Rows of trees on the ground.
pub const TREE_ROWS: usize = 4;

/// Trees in each row.
pub const TREE_COLUMNS: usize = 9;

/// Radius of the disc that shows a tree.
pub const TREE_RADIUS: i32 = 10;

/// Radius of the two discs that show the hat and its peak.
pub const HAT_RADIUS: i32 = 25;

/// Radius of the disc that marks the crown of the hat.
pub const CROWN_RADIUS: i32 = 20;

/// Distance between the centre of the hat and the centre of its peak, which
/// points along the heading of the target.
pub const PEAK_DISTANCE: i32 = 22;

/// Colour of the trees.
pub open spec fn tree_color() -> Color {
    Color { blue: 0, green: 255, red: 0 }
}

/// Colour of the hat and its peak.
pub open spec fn hat_color() -> Color {
    Color { blue: 0, green: 0, red: 255 }
}

/// Colour of the crown of the hat.
pub open spec fn crown_color() -> Color {
    Color { blue: 76, green: 76, red: 205 }
}

/// Where the `k`-th tree stands on the ground. The trees form a grid of
/// `TREE_ROWS` rows and `TREE_COLUMNS` columns, 100 units apart, counted row
/// by row from the lower left tree at (-380, -140).
pub open spec fn tree_at(k: int) -> GeometricPoint {
    GeometricPoint {
        x: (100 * (k % 9 + 1) - 480) as i32,
        y: (100 * (k / 9 + 1) - 240) as i32,
    }
}

/// The trees on the ground, which never move.
pub fn trees() -> (r: Vec<GeometricPoint>)
    ensures
        r@.len() == TREE_ROWS * TREE_COLUMNS,
        forall|k: int| 0 <= k < r@.len() ==> r@[k] == tree_at(k),
{
    let mut r: Vec<GeometricPoint> = Vec::new();
    let mut i: usize = 0;
    while i < TREE_ROWS
        invariant
            i <= TREE_ROWS,
            r@.len() == i * TREE_COLUMNS,
            forall|k: int| 0 <= k < r@.len() ==> r@[k] == tree_at(k),
        decreases TREE_ROWS - i,
    {
        let mut j: usize = 0;
        while j < TREE_COLUMNS
            invariant
                i < TREE_ROWS,
                j <= TREE_COLUMNS,
                r@.len() == i * TREE_COLUMNS + j,
                forall|k: int| 0 <= k < r@.len() ==> r@[k] == tree_at(k),
            decreases TREE_COLUMNS - j,
        {
            let x: i32 = 100 * (j as i32 + 1) - 480;
            let y: i32 = 100 * (i as i32 + 1) - 240;
            proof {
                let k = r@.len() as int;
                assert(k == i * 9 + j);
                assert(k % 9 == j && k / 9 == i) by (nonlinear_arith)
                    requires
                        k == i * 9 + j,
                        0 <= j < 9,
                        0 <= i,
                ;
            }
            r.push(GeometricPoint { x, y });
            j = j + 1;
        }
        i = i + 1;
    }
    r
}

} // verus!
