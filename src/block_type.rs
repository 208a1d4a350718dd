use vstd::prelude::*;

verus! {

/// Width of one terrain block: 0.1 world units.
pub const BLOCK_SIZE: i64 = 100_000;

/// Height (thickness) of one terrain block: 0.01 world units.
pub const BLOCK_HEIGHT: i64 = 10_000;

/// The slope of one terrain block.
#[derive(Debug, Clone, Copy, PartialEq, Eq, Structural)]
pub enum BlockType {
    Flat,
    Uphill,
    Downhill,
}

impl BlockType {
    /// Whether the block is a slope (not flat).
    pub open spec fn is_slope(self) -> bool {
        !(self is Flat)
    }

    /// The rotation of the block about the depth axis, in degrees.
    pub open spec fn tilt(self) -> u32 {
        match self {
            BlockType::Flat => 0,
            BlockType::Uphill => 45,
            BlockType::Downhill => 315,
        }
    }

    /// Rotation of the block's sprite and collision box, in degrees
    /// (counter-clockwise): flat blocks are level, uphill blocks rise at 45
    /// degrees and downhill blocks fall at 45 degrees.
    pub fn tilt_degrees(&self) -> (r: u32)
        ensures
            r == self.tilt(),
    {
        match self {
            BlockType::Flat => 0,
            BlockType::Uphill => 45,
            BlockType::Downhill => 315,
        }
    }
}

} // verus!
