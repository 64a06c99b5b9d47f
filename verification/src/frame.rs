use vstd::prelude::*;

verus! {

/// One playback unit: a pair of signed 16-bit samples, left and right.
/// A mono source duplicates its single sample into both slots.
#[derive(Clone, Copy, Debug, PartialEq, Eq, Structural)]
pub struct AudioFrame {
    pub left: i16,
    pub right: i16,
}

impl AudioFrame {
    /// Builds the frame holding the two given samples.
    pub fn new(left: i16, right: i16) -> (f: AudioFrame)
        ensures
            f.left == left,
            f.right == right,
    {
        AudioFrame { left, right }
    }
}

} // verus!
