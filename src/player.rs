use vstd::prelude::*;

use crate::constants::{AnimationClip, FrameRange, clip_frames, JUMP_IMPULSE, MOVE_SPEED};
use crate::contact::{Climber, GroundDetection};

verus! {

/// The direction the player sprite looks in.
#[derive(Copy, Clone, PartialEq, Eq, Debug, Structural)]
pub enum Facing {
    Right,
    Left,
}

impl Facing {
    /// Whether the sprite, drawn facing right, is mirrored.
    pub fn flip_x(&self) -> (r: bool)
        ensures
            r == (*self == Facing::Left),
    {
        match self {
            Facing::Right => false,
            Facing::Left => true,
        }
    }
}

#[derive(Copy, Clone, PartialEq, Eq, Debug, Structural)]
pub struct Player {
    pub facing: Facing,
}

impl Player {
    /// A player facing right.
    pub fn new() -> (r: Player)
        ensures
            r.facing == Facing::Right,
    {
        Player { facing: Facing::Right }
    }
}

/// The logical actions of one tick: which are held, and which were pressed this tick.
#[derive(Copy, Clone, PartialEq, Eq, Debug, Structural)]
pub struct PlayerInput {
    pub left: bool,
    pub right: bool,
    pub up: bool,
    pub down: bool,
    pub up_just_pressed: bool,
    pub down_just_pressed: bool,
    pub jump_just_pressed: bool,
}

/// Where an analog axis stands against the stick's dead zone.
#[derive(Copy, Clone, PartialEq, Eq, Debug, Structural)]
pub enum AxisZone {
    Negative,
    Neutral,
    Positive,
}

/// What an analog axis does to the pair of actions it drives.
#[derive(Copy, Clone, PartialEq, Eq, Debug, Structural)]
pub enum AxisCommand {
    /// Press the action of the negative side, release the other.
    PressNegative,
    /// Press the action of the positive side, release the other.
    PressPositive,
    /// Release both actions.
    ReleaseBoth,
    /// Leave both actions as they are.
    Keep,
}

pub open spec fn spec_axis_command(zone: AxisZone, negative_held: bool, positive_held: bool) -> AxisCommand {
    match zone {
        AxisZone::Negative => AxisCommand::PressNegative,
        AxisZone::Positive => AxisCommand::PressPositive,
        AxisZone::Neutral => if !negative_held && !positive_held {
            AxisCommand::ReleaseBoth
        } else {
            AxisCommand::Keep
        },
    }
}

/// Folds one stick axis into its two digital actions: outside the dead zone the
/// stick presses its side and releases the other; inside it, actions held by other
/// devices stay held.
pub fn axis_command(zone: AxisZone, negative_held: bool, positive_held: bool) -> (r: AxisCommand)
    ensures
        r == spec_axis_command(zone, negative_held, positive_held),
{
    match zone {
        AxisZone::Negative => AxisCommand::PressNegative,
        AxisZone::Positive => AxisCommand::PressPositive,
        AxisZone::Neutral => {
            if !negative_held && !positive_held {
                AxisCommand::ReleaseBoth
            } else {
                AxisCommand::Keep
            }
        },
    }
}

/// What one movement pass decides.
#[derive(Copy, Clone, PartialEq, Eq, Debug, Structural)]
pub struct MovementOutcome {
    /// The new horizontal velocity.
    pub vx: i32,
    /// The new vertical velocity, or `None` where the physics keeps its own.
    pub vy: Option<i32>,
    /// Whether a jump happened; the audio plays its sound.
    pub jumped: bool,
}

pub open spec fn unit(b: bool) -> int {
    if b { 1 } else { 0 }
}

pub open spec fn spec_facing(input: PlayerInput, facing: Facing) -> Facing {
    if input.right {
        Facing::Right
    } else if input.left {
        Facing::Left
    } else {
        facing
    }
}

pub open spec fn spec_horizontal(input: PlayerInput) -> int {
    (unit(input.right) - unit(input.left)) * MOVE_SPEED
}

/// The ladder latch after the latch step: released off a ladder, grabbed on a fresh
/// press of up or down while on one.
pub open spec fn spec_latch(input: PlayerInput, touching: bool, climbing: bool) -> bool {
    if !touching {
        false
    } else if input.up_just_pressed || input.down_just_pressed {
        true
    } else {
        climbing
    }
}

pub open spec fn spec_jumps(input: PlayerInput, on_ground: bool, latched: bool) -> bool {
    input.jump_just_pressed && (on_ground || latched)
}

pub open spec fn spec_vertical(input: PlayerInput, on_ground: bool, latched: bool) -> Option<int> {
    if spec_jumps(input, on_ground, latched) {
        Some(JUMP_IMPULSE as int)
    } else if latched {
        Some((unit(input.up) - unit(input.down)) * MOVE_SPEED)
    } else {
        None
    }
}

pub open spec fn spec_climbing_after(input: PlayerInput, on_ground: bool, touching: bool, climbing: bool) -> bool {
    let latched = spec_latch(input, touching, climbing);
    latched && !spec_jumps(input, on_ground, latched)
}

fn unit_of(b: bool) -> (r: i32)
    ensures
        r as int == unit(b),
{
    if b { 1 } else { 0 }
}

/// One movement pass for the player: facing and horizontal velocity from left and
/// right, the ladder latch, climbing velocity, and the jump.
pub fn player_movement(
    input: &PlayerInput,
    climber: &mut Climber,
    ground: &GroundDetection,
    player: &mut Player,
) -> (r: MovementOutcome)
    ensures
        final(player).facing == spec_facing(*input, old(player).facing),
        r.vx as int == spec_horizontal(*input),
        r.jumped == spec_jumps(
            *input,
            ground.spec_on_ground(),
            spec_latch(*input, old(climber).tracker.active(), old(climber).climbing),
        ),
        match r.vy {
            Some(v) => spec_vertical(
                *input,
                ground.spec_on_ground(),
                spec_latch(*input, old(climber).tracker.active(), old(climber).climbing),
            ) == Some(v as int),
            None => spec_vertical(
                *input,
                ground.spec_on_ground(),
                spec_latch(*input, old(climber).tracker.active(), old(climber).climbing),
            ) is None,
        },
        final(climber).climbing == spec_climbing_after(
            *input,
            ground.spec_on_ground(),
            old(climber).tracker.active(),
            old(climber).climbing,
        ),
        final(climber).tracker == old(climber).tracker,
{
    if input.left {
        player.facing = Facing::Left;
    }
    if input.right {
        player.facing = Facing::Right;
    }
    let vx: i32 = (unit_of(input.right) - unit_of(input.left)) * MOVE_SPEED;

    if !climber.touches_climbable() {
        climber.climbing = false;
    } else if input.up_just_pressed || input.down_just_pressed {
        climber.climbing = true;
    }

    let mut vy: Option<i32> = None;
    if climber.climbing {
        vy = Some((unit_of(input.up) - unit_of(input.down)) * MOVE_SPEED);
    }

    let mut jumped = false;
    if input.jump_just_pressed && (ground.on_ground() || climber.climbing) {
        vy = Some(JUMP_IMPULSE);
        climber.climbing = false;
        jumped = true;
    }
    MovementOutcome { vx, vy, jumped }
}

/// A movement pass off every ladder leaves the player not climbing, whatever is held
/// or pressed, and lets the physics keep its vertical velocity unless a jump fires.
pub proof fn law_latch_released_off_ladder(input: PlayerInput, on_ground: bool, climbing: bool)
    ensures
        !spec_climbing_after(input, on_ground, false, climbing),
        !spec_latch(input, false, climbing),
        !spec_jumps(input, on_ground, false) ==> spec_vertical(input, on_ground, false) is None,
{
}

/// One tick of jump bookkeeping: the input, whether the player stood on ground, and
/// whether the ladder latch held after the latch step.
pub struct JumpTick {
    pub input: PlayerInput,
    pub on_ground: bool,
    pub latched: bool,
}

/// How many ticks of `ticks` fire a jump.
pub open spec fn jumps_over(ticks: Seq<JumpTick>) -> nat
    decreases ticks.len(),
{
    if ticks.len() == 0 {
        0
    } else {
        let t = ticks.last();
        jumps_over(ticks.drop_last()) + if spec_jumps(t.input, t.on_ground, t.latched) {
            1nat
        } else {
            0nat
        }
    }
}

/// How many ticks of `ticks` see a fresh jump press.
pub open spec fn presses_over(ticks: Seq<JumpTick>) -> nat
    decreases ticks.len(),
{
    if ticks.len() == 0 {
        0
    } else {
        presses_over(ticks.drop_last()) + if ticks.last().input.jump_just_pressed {
            1nat
        } else {
            0nat
        }
    }
}

/// A jump fires only on a fresh press while on ground or on a ladder, and sets the
/// fixed impulse; so over any run of ticks there are no more jumps than presses.
pub proof fn law_jump_per_press(ticks: Seq<JumpTick>)
    ensures
        jumps_over(ticks) <= presses_over(ticks),
        forall|input: PlayerInput, on_ground: bool, latched: bool|
            #[trigger] spec_jumps(input, on_ground, latched) ==> input.jump_just_pressed && (on_ground
                || latched) && spec_vertical(input, on_ground, latched) == Some(JUMP_IMPULSE as int),
    decreases ticks.len(),
{
    if ticks.len() > 0 {
        law_jump_per_press(ticks.drop_last());
    }
}

/// The clip table over the four motion flags.
pub open spec fn spec_select_clip(climbing: bool, going_up: bool, falling: bool, idle: bool) -> AnimationClip {
    if climbing {
        if idle { AnimationClip::ClimbIdle } else { AnimationClip::Climb }
    } else if going_up {
        AnimationClip::JumpUp
    } else if falling {
        AnimationClip::JumpDown
    } else if idle {
        AnimationClip::Idle
    } else {
        AnimationClip::Walk
    }
}

/// Picks the player's clip from its motion flags; every combination has a clip.
pub fn select_clip(climbing: bool, going_up: bool, falling: bool, idle: bool) -> (r: AnimationClip)
    ensures
        r == spec_select_clip(climbing, going_up, falling, idle),
{
    match (climbing, going_up, falling, idle) {
        (true, _, _, true) => AnimationClip::ClimbIdle,
        (true, _, _, false) => AnimationClip::Climb,
        (false, true, _, _) => AnimationClip::JumpUp,
        (false, false, true, _) => AnimationClip::JumpDown,
        (false, false, false, true) => AnimationClip::Idle,
        (false, false, false, false) => AnimationClip::Walk,
    }
}

/// The clip of a player in the given contact state and with the given velocity, in
/// whole world units per second (a speed that rounds to zero counts as zero).
pub open spec fn spec_animation_for(on_ground: bool, climbing: bool, vx: int, vy: int) -> AnimationClip {
    spec_select_clip(
        climbing,
        !on_ground && vy > 0,
        !on_ground && vy <= 0 && !climbing,
        vx == 0 && vy == 0,
    )
}

/// The clip depends on the four flags alone, as the table gives it: climbing picks
/// the climbing clips by idleness; otherwise rising, then falling, then idleness.
pub proof fn law_clip_table(climbing: bool, going_up: bool, falling: bool, idle: bool)
    ensures
        climbing && idle ==> spec_select_clip(climbing, going_up, falling, idle) == AnimationClip::ClimbIdle,
        climbing && !idle ==> spec_select_clip(climbing, going_up, falling, idle) == AnimationClip::Climb,
        !climbing && going_up ==> spec_select_clip(climbing, going_up, falling, idle) == AnimationClip::JumpUp,
        !climbing && !going_up && falling ==> spec_select_clip(climbing, going_up, falling, idle)
            == AnimationClip::JumpDown,
        !climbing && !going_up && !falling && idle ==> spec_select_clip(climbing, going_up, falling, idle)
            == AnimationClip::Idle,
        !climbing && !going_up && !falling && !idle ==> spec_select_clip(climbing, going_up, falling, idle)
            == AnimationClip::Walk,
        forall|c2: bool, u2: bool, f2: bool, i2: bool|
            c2 == climbing && u2 == going_up && f2 == falling && i2 == idle ==> #[trigger] spec_select_clip(
                c2,
                u2,
                f2,
                i2,
            ) == spec_select_clip(climbing, going_up, falling, idle),
{
}

/// Derives the motion flags from the player's state and picks the clip.
pub fn set_animation(on_ground: bool, climbing: bool, vx: i32, vy: i32) -> (r: AnimationClip)
    ensures
        r == spec_animation_for(on_ground, climbing, vx as int, vy as int),
{
    let going_up = !on_ground && vy > 0;
    let is_falling = !on_ground && vy <= 0 && !climbing;
    let is_idle = vx == 0 && vy == 0;
    select_clip(climbing, going_up, is_falling, is_idle)
}

/// The frame range that the sprite currently cycles through.
#[derive(Copy, Clone, PartialEq, Eq, Debug, Structural)]
pub struct AnimationIndices {
    first: usize,
    last: usize,
}

impl AnimationIndices {
    pub closed spec fn spec_first(self) -> usize {
        self.first
    }

    pub closed spec fn spec_last(self) -> usize {
        self.last
    }

    /// Indices of the idle clip.
    pub fn new() -> (r: AnimationIndices)
        ensures
            r.spec_first() == clip_frames(AnimationClip::Idle).first,
            r.spec_last() == clip_frames(AnimationClip::Idle).last,
    {
        let f = AnimationClip::Idle.frames();
        AnimationIndices { first: f.first, last: f.last }
    }

    pub fn first(&self) -> (r: usize)
        ensures
            r == self.spec_first(),
    {
        self.first
    }

    pub fn last(&self) -> (r: usize)
        ensures
            r == self.spec_last(),
    {
        self.last
    }

    /// Switches to the given frame range.
    pub fn set(&mut self, frame_range: FrameRange)
        ensures
            final(self).spec_first() == frame_range.first,
            final(self).spec_last() == frame_range.last,
    {
        self.first = frame_range.first;
        self.last = frame_range.last;
    }

    /// The frame shown after `index` when the frame timer fires: the next frame of
    /// the range, or its first frame once past the end or outside the range.
    pub fn next_frame(&self, index: usize) -> (r: usize)
        ensures
            r == if index >= self.spec_last() || index < self.spec_first() {
                self.spec_first()
            } else {
                (index + 1) as usize
            },
    {
        if index >= self.last || index < self.first {
            self.first
        } else {
            index + 1
        }
    }
}

} // verus!
