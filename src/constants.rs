use vstd::prelude::*;

verus! {

/// Edge length of one grid cell, in world units.
pub const TILE_SIZE: i32 = 16;

/// Horizontal walking speed, and vertical speed on a ladder, in world units per second.
pub const MOVE_SPEED: i32 = 200;

/// Upward velocity set by a jump, in world units per second.
pub const JUMP_IMPULSE: i32 = 400;

/// The cell values that a level's integer grid layers use.
#[derive(Copy, Clone, PartialEq, Eq, Debug, Structural)]
pub enum IntGridValues {
    Dirt,
    Ladder,
    Stone,
    Goal,
    SpawnPoint,
}

impl IntGridValues {
    /// The integer stored in a layer for this cell kind.
    pub open spec fn spec_code(self) -> int {
        match self {
            IntGridValues::Dirt => 1,
            IntGridValues::Ladder => 2,
            IntGridValues::Stone => 3,
            IntGridValues::Goal => 4,
            IntGridValues::SpawnPoint => 5,
        }
    }

    /// The integer stored in a layer for this cell kind.
    pub fn code(&self) -> (r: i32)
        ensures
            r as int == self.spec_code(),
    {
        match self {
            IntGridValues::Dirt => 1,
            IntGridValues::Ladder => 2,
            IntGridValues::Stone => 3,
            IntGridValues::Goal => 4,
            IntGridValues::SpawnPoint => 5,
        }
    }
}

/// Reading a stored cell value; an unknown value reads as dirt.
pub open spec fn int_grid_value_of(value: i32) -> IntGridValues {
    if value == 2 {
        IntGridValues::Ladder
    } else if value == 3 {
        IntGridValues::Stone
    } else if value == 4 {
        IntGridValues::Goal
    } else if value == 5 {
        IntGridValues::SpawnPoint
    } else {
        IntGridValues::Dirt
    }
}

impl From<i32> for IntGridValues {
    fn from(value: i32) -> (r: IntGridValues) {
        match value {
            1 => IntGridValues::Dirt,
            2 => IntGridValues::Ladder,
            3 => IntGridValues::Stone,
            4 => IntGridValues::Goal,
            5 => IntGridValues::SpawnPoint,
            _ => IntGridValues::Dirt,
        }
    }
}

impl vstd::std_specs::convert::FromSpecImpl<i32> for IntGridValues {
    open spec fn obeys_from_spec() -> bool {
        true
    }

    open spec fn from_spec(v: i32) -> IntGridValues {
        int_grid_value_of(v)
    }
}

/// An inclusive range of sprite sheet frames.
#[derive(Copy, Clone, PartialEq, Eq, Debug, Structural)]
pub struct FrameRange {
    pub first: usize,
    pub last: usize,
}

/// The animation clips of the player sprite.
#[derive(Copy, Clone, PartialEq, Eq, Debug, Structural)]
pub enum AnimationClip {
    Idle,
    Walk,
    Climb,
    ClimbIdle,
    Death,
    JumpUp,
    JumpDown,
}

/// The frame range of each clip on the player's sprite sheet.
pub open spec fn clip_frames(clip: AnimationClip) -> FrameRange {
    match clip {
        AnimationClip::Idle => FrameRange { first: 0, last: 3 },
        AnimationClip::Walk => FrameRange { first: 6, last: 11 },
        AnimationClip::Climb => FrameRange { first: 12, last: 15 },
        AnimationClip::ClimbIdle => FrameRange { first: 12, last: 12 },
        AnimationClip::Death => FrameRange { first: 24, last: 25 },
        AnimationClip::JumpUp => FrameRange { first: 30, last: 30 },
        AnimationClip::JumpDown => FrameRange { first: 31, last: 31 },
    }
}

impl AnimationClip {
    /// The frames that this clip plays.
    pub fn frames(&self) -> (r: FrameRange)
        ensures
            r == clip_frames(*self),
            r.first <= r.last,
    {
        match self {
            AnimationClip::Idle => FrameRange { first: 0, last: 3 },
            AnimationClip::Walk => FrameRange { first: 6, last: 11 },
            AnimationClip::Climb => FrameRange { first: 12, last: 15 },
            AnimationClip::ClimbIdle => FrameRange { first: 12, last: 12 },
            AnimationClip::Death => FrameRange { first: 24, last: 25 },
            AnimationClip::JumpUp => FrameRange { first: 30, last: 30 },
            AnimationClip::JumpDown => FrameRange { first: 31, last: 31 },
        }
    }
}

} // verus!
