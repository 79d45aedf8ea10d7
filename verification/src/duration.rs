//! Elapsed in-game time, counted exactly in sixtieths of a second.

use vstd::prelude::*;

verus! {

/// The game counts this many sub-second frames in one second.
pub const FRAMES_PER_SECOND: u32 = 60;

/// Elapsed game time as a whole number of frames, sixty to the second.
#[derive(Clone, Copy, Debug, PartialEq, Eq, Structural)]
pub struct ElapsedDuration {
    pub sixtieths: u32,
}

/// hours * 3600 + minutes * 60 + seconds + frames / 60, scaled by sixty so
/// that it stays an integer.
pub open spec fn spec_sixtieths(hours: u8, minutes: u8, seconds: u8, sub_second_frames: u8) -> int {
    hours as int * 216000 + minutes as int * 3600 + seconds as int * 60 + sub_second_frames as int
}

/// The elapsed time that the game's four counters stand for. Nothing is
/// lost: a frame count of sixty or more carries into the seconds.
pub fn time_components_to_duration(
    hours: u8,
    minutes: u8,
    seconds: u8,
    sub_second_frames: u8,
) -> (d: ElapsedDuration)
    ensures
        d.sixtieths as int == spec_sixtieths(hours, minutes, seconds, sub_second_frames),
{
    let total: u32 = hours as u32 * 216000 + minutes as u32 * 3600 + seconds as u32 * 60
        + sub_second_frames as u32;
    ElapsedDuration { sixtieths: total }
}

impl ElapsedDuration {
    /// The full seconds in the duration.
    pub fn whole_seconds(&self) -> (s: u32)
        ensures
            s as int == self.sixtieths as int / 60,
    {
        self.sixtieths / FRAMES_PER_SECOND
    }

    /// The frames beyond the last full second, below sixty.
    pub fn subsec_frames(&self) -> (f: u32)
        ensures
            f as int == self.sixtieths as int % 60,
            f < 60,
    {
        self.sixtieths % FRAMES_PER_SECOND
    }
}

} // verus!
