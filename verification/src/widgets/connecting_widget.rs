use vstd::prelude::*;

verus! {

/// The screen shown until the oven answers.
pub struct ConnectingWidget<'a> {
    pub oven_ip: &'a str,
    pub status: &'a str,
    pub spinner_tick: u64,
}

/// Number of spinner frames.
pub const SPINNER_FRAMES: u64 = 10;

/// The spinner frame shown at tick `tick`: it advances every second tick and
/// wraps after the last frame.
pub open spec fn spinner_frame_of(tick: u64) -> int {
    (tick / 2) as int % SPINNER_FRAMES as int
}

impl<'a> ConnectingWidget<'a> {
    /// The connecting screen for `oven_ip`, showing `status`.
    pub fn new(oven_ip: &'a str, status: &'a str, spinner_tick: u64) -> (w: Self)
        ensures
            w.oven_ip@ == oven_ip@,
            w.status@ == status@,
            w.spinner_tick == spinner_tick,
    {
        ConnectingWidget { oven_ip, status, spinner_tick }
    }

    /// Index of the spinner frame to show (see [`spinner_frame_of`]).
    pub fn spinner_frame(&self) -> (r: usize)
        ensures
            r == spinner_frame_of(self.spinner_tick),
            r < SPINNER_FRAMES,
    {
        ((self.spinner_tick / 2) % SPINNER_FRAMES) as usize
    }
}

} // verus!
