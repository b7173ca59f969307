use vstd::prelude::*;

verus! {

/// A point of the observer's frame of reference, in whole units: the
/// observer sits at (0, 0), `x` grows to the right and `y` grows upwards.
#[derive(Clone, Copy, Debug, PartialEq, Eq, Structural)]
pub struct GeometricPoint {
    pub x: i32,
    pub y: i32,
}

/// A pixel of the camera frame: `x` is the column and `y` the row, counted
/// from the top left corner, so that `y` grows downwards.
#[derive(Clone, Copy, Debug, PartialEq, Eq, Structural)]
pub struct ImagePoint {
    pub x: i32,
    pub y: i32,
}

/// The nearest value to `v` that an `i32` can hold.
pub open spec fn clamp_i32(v: int) -> int {
    if v < i32::MIN {
        i32::MIN as int
    } else if v > i32::MAX {
        i32::MAX as int
    } else {
        v
    }
}

fn clamp(v: i64) -> (r: i32)
    ensures
        r == clamp_i32(v as int),
{
    if v < -2147483648 {
        -2147483648
    } else if v > 2147483647 {
        2147483647
    } else {
        v as i32
    }
}

impl GeometricPoint {
    pub fn new(x: i32, y: i32) -> (r: GeometricPoint)
        ensures
            r.x == x,
            r.y == y,
    {
        GeometricPoint { x, y }
    }

    /// The point that lies `dx` to the right of this one and `dy` above it.
    /// A coordinate that leaves the range of `i32` stops at its bound.
    pub open spec fn shifted(self, dx: i32, dy: i32) -> GeometricPoint {
        GeometricPoint {
            x: clamp_i32(self.x + dx) as i32,
            y: clamp_i32(self.y + dy) as i32,
        }
    }

    /// The point that lies `dx` to the right of this one and `dy` above it.
    pub fn offset(&self, dx: i32, dy: i32) -> (r: GeometricPoint)
        ensures
            r == self.shifted(dx, dy),
    {
        GeometricPoint { x: clamp(self.x as i64 + dx as i64), y: clamp(self.y as i64 + dy as i64) }
    }
}

impl ImagePoint {
    pub fn new(x: i32, y: i32) -> (r: ImagePoint)
        ensures
            r.x == x,
            r.y == y,
    {
        ImagePoint { x, y }
    }
}

/// Converts between points of the observer's frame of reference and pixels
/// of a camera frame of a given size. The observer looks at the centre of
/// the frame.
#[derive(Clone, Copy, Debug, PartialEq, Eq, Structural)]
pub struct PointConverter {
    width: usize,
    height: usize,
}

impl PointConverter {
    /// Width of the frame in pixels.
    pub closed spec fn frame_width(&self) -> int {
        self.width as int
    }

    /// Height of the frame in pixels.
    pub closed spec fn frame_height(&self) -> int {
        self.height as int
    }

    /// Both sides of the frame can be counted in pixel coordinates.
    pub open spec fn wf(&self) -> bool {
        &&& 0 <= self.frame_width() <= i32::MAX
        &&& 0 <= self.frame_height() <= i32::MAX
    }

    /// The pixel column on which the observer sits.
    pub open spec fn centre_column(&self) -> int {
        self.frame_width() / 2
    }

    /// The pixel row on which the observer sits.
    pub open spec fn centre_row(&self) -> int {
        self.frame_height() / 2
    }

    /// The column of the pixel that shows `point`, before it is brought into
    /// the range of `i32`.
    pub open spec fn column_of(&self, point: GeometricPoint) -> int {
        point.x + self.centre_column()
    }

    /// The row of the pixel that shows `point`, before it is brought into
    /// the range of `i32`. Rows grow downwards, so `y` counts against them.
    pub open spec fn row_of(&self, point: GeometricPoint) -> int {
        self.centre_row() - point.y
    }

    /// The pixel that shows `point`. A coordinate that leaves the range of
    /// `i32` stops at its bound; such a pixel lies far outside the frame
    /// either way.
    pub open spec fn pixel_of(&self, point: GeometricPoint) -> ImagePoint {
        ImagePoint {
            x: clamp_i32(self.column_of(point)) as i32,
            y: clamp_i32(self.row_of(point)) as i32,
        }
    }

    /// The point that the pixel `pixel` shows, with the same treatment of
    /// coordinates that leave the range of `i32`.
    pub open spec fn point_of(&self, pixel: ImagePoint) -> GeometricPoint {
        GeometricPoint {
            x: clamp_i32(pixel.x - self.centre_column()) as i32,
            y: clamp_i32(self.centre_row() - pixel.y) as i32,
        }
    }

    /// The pixel lies inside the frame. What is drawn outside is lost
    /// without notice.
    pub open spec fn shows(&self, pixel: ImagePoint) -> bool {
        &&& 0 <= pixel.x < self.frame_width()
        &&& 0 <= pixel.y < self.frame_height()
    }

    /// A converter for frames of `width` by `height` pixels.
    pub fn new(width: usize, height: usize) -> (r: PointConverter)
        requires
            width <= i32::MAX,
            height <= i32::MAX,
        ensures
            r.wf(),
            r.frame_width() == width,
            r.frame_height() == height,
    {
        PointConverter { width, height }
    }

    /// Width of the frame in pixels.
    pub fn width(&self) -> (r: usize)
        ensures
            r == self.frame_width(),
    {
        self.width
    }

    /// Height of the frame in pixels.
    pub fn height(&self) -> (r: usize)
        ensures
            r == self.frame_height(),
    {
        self.height
    }

    /// The point that the centre of the frame shows.
    pub fn get_center(&self) -> (r: GeometricPoint)
        ensures
            r == (GeometricPoint { x: 0, y: 0 }),
    {
        GeometricPoint { x: 0, y: 0 }
    }

    /// The pixel that shows `point`.
    pub fn to_pixel(&self, point: &GeometricPoint) -> (r: ImagePoint)
        requires
            self.wf(),
        ensures
            r == self.pixel_of(*point),
    {
        let half_width: i64 = (self.width / 2) as i64;
        let half_height: i64 = (self.height / 2) as i64;
        ImagePoint {
            x: clamp(point.x as i64 + half_width),
            y: clamp(half_height - point.y as i64),
        }
    }

    /// The point that `pixel` shows.
    pub fn from_pixel(&self, pixel: &ImagePoint) -> (r: GeometricPoint)
        requires
            self.wf(),
        ensures
            r == self.point_of(*pixel),
    {
        let half_width: i64 = (self.width / 2) as i64;
        let half_height: i64 = (self.height / 2) as i64;
        GeometricPoint {
            x: clamp(pixel.x as i64 - half_width),
            y: clamp(half_height - pixel.y as i64),
        }
    }

    /// Whether `pixel` lies inside the frame.
    pub fn contains(&self, pixel: &ImagePoint) -> (r: bool)
        requires
            self.wf(),
        ensures
            r == self.shows(*pixel),
    {
        pixel.x >= 0 && pixel.y >= 0 && (pixel.x as usize) < self.width && (pixel.y as usize)
            < self.height
    }

    /// The conversion can be undone: a point whose pixel can be written in
    /// `i32` coordinates is found again from that pixel.
    pub proof fn lemma_point_round_trip(self, point: GeometricPoint)
        requires
            self.wf(),
            self.column_of(point) <= i32::MAX,
            self.row_of(point) <= i32::MAX,
        ensures
            self.point_of(self.pixel_of(point)) == point,
    {
    }

    /// The conversion can be undone the other way round: every pixel of the
    /// frame is the pixel of the point that it shows.
    pub proof fn lemma_pixel_round_trip(self, pixel: ImagePoint)
        requires
            self.wf(),
            self.shows(pixel),
        ensures
            self.pixel_of(self.point_of(pixel)) == pixel,
    {
    }

    /// Clipping is decided by the exact position: a point is shown in the
    /// frame exactly if its column and row, computed without any bound, lie
    /// in the frame. Every point that is shown is found again from its
    /// pixel.
    pub proof fn lemma_clipping(self, point: GeometricPoint)
        requires
            self.wf(),
        ensures
            self.shows(self.pixel_of(point)) <==> {
                &&& 0 <= self.column_of(point) < self.frame_width()
                &&& 0 <= self.row_of(point) < self.frame_height()
            },
            self.shows(self.pixel_of(point)) ==> self.point_of(self.pixel_of(point)) == point,
    {
    }
}

} // verus!
