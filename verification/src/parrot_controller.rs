use vstd::prelude::*;

verus! {

/// How often a drone may be told to climb during one take-off.
pub const MAX_CLIMBS: u32 = 51;

/// What a take-off does next.
#[derive(Clone, Copy, Debug, PartialEq, Eq, Structural)]
pub enum Climb {
    /// The flight height is reached: stop climbing.
    Reached,
    /// The drone is too low: climb for another fifth of a second and read
    /// the height again.
    Higher,
    /// The drone has climbed `MAX_CLIMBS` times: land and give the flight
    /// up, whatever height it has reached.
    GiveUp,
}

/// The rules by which a real drone takes off: the height at which it is to
/// fly, in centimetres, and whether its commands are logged. The link to
/// the drone is the caller's.
pub struct ParrotController {
    print_debug: bool,
    flight_height: i32,
}

impl ParrotController {
    /// The height at which the drone is to fly.
    pub closed spec fn target_height(&self) -> i32 {
        self.flight_height
    }

    /// Whether commands are logged.
    pub closed spec fn logs(&self) -> bool {
        self.print_debug
    }

    /// What a take-off does next, when the drone has climbed `climbs` times
    /// and was last seen at `height`.
    pub open spec fn next_climb(&self, height: i32, climbs: u32) -> Climb {
        if climbs >= MAX_CLIMBS {
            Climb::GiveUp
        } else if height < self.target_height() {
            Climb::Higher
        } else {
            Climb::Reached
        }
    }

    pub fn new(flight_height: i32, debug: bool) -> (r: ParrotController)
        ensures
            r.target_height() == flight_height,
            r.logs() == debug,
    {
        ParrotController { print_debug: debug, flight_height }
    }

    /// The height at which the drone is to fly.
    pub fn flight_height(&self) -> (r: i32)
        ensures
            r == self.target_height(),
    {
        self.flight_height
    }

    /// Whether commands are logged.
    pub fn print_debug(&self) -> (r: bool)
        ensures
            r == self.logs(),
    {
        self.print_debug
    }

    /// The height that the drone flies at: `altitude` is what it reports as
    /// a signed number, if it reports one. A drone that reports nothing of
    /// the kind counts as standing on the ground.
    pub fn get_current_flight_height(&self, altitude: Option<i32>) -> (r: i32)
        ensures
            r == match altitude {
                Some(a) => a,
                None => 0,
            },
    {
        match altitude {
            Some(a) => a,
            None => 0,
        }
    }

    /// What a take-off does next, when the drone has climbed `climbs` times
    /// and was last seen at `height`.
    pub fn takeoff_step(&self, height: i32, climbs: u32) -> (r: Climb)
        ensures
            r == self.next_climb(height, climbs),
    {
        if climbs >= MAX_CLIMBS {
            Climb::GiveUp
        } else if height < self.flight_height {
            Climb::Higher
        } else {
            Climb::Reached
        }
    }

    /// Height of the drone's video in pixels.
    pub fn get_video_height(&self) -> (r: usize)
        ensures
            r == 360,
    {
        360
    }

    /// Width of the drone's video in pixels.
    pub fn get_video_width(&self) -> (r: usize)
        ensures
            r == 640,
    {
        640
    }

    /// Where the drone's video is found.
    pub fn get_opencv_url(&self) -> (r: String)
        ensures
            r@ == "tcp://192.168.1.1:5555"@,
    {
        "tcp://192.168.1.1:5555".to_owned()
    }
}

} // verus!
