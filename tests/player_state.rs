use platformer::constants::{AnimationClip, FrameRange, IntGridValues, JUMP_IMPULSE, MOVE_SPEED};
use platformer::contact::{route_collision, Climber, CollisionEvent, ContactTracker, GroundDetection, Role};
use platformer::player::{
    axis_command, player_movement, select_clip, set_animation, AnimationIndices, AxisCommand, AxisZone,
    Facing, Player, PlayerInput,
};

fn no_input() -> PlayerInput {
    PlayerInput {
        left: false,
        right: false,
        up: false,
        down: false,
        up_just_pressed: false,
        down_just_pressed: false,
        jump_just_pressed: false,
    }
}

fn on_ladder(climbing: bool) -> Climber {
    let mut c = Climber::new();
    c.tracker.on_contact_begin();
    c.climbing = climbing;
    c
}

fn grounded() -> GroundDetection {
    let mut g = GroundDetection::new();
    g.tracker.on_contact_begin();
    g
}

#[test]
fn tracker_counts_overlaps() {
    let mut t = ContactTracker::new();
    assert!(!t.is_active());
    t.on_contact_begin();
    t.on_contact_begin();
    assert_eq!(t.count, 2);
    assert!(t.is_active());
    assert!(t.on_contact_end());
    assert!(t.is_active());
    assert!(t.on_contact_end());
    assert!(!t.is_active());
    assert_eq!(t.count, 0);
}

#[test]
fn tracker_clamps_unmatched_end() {
    let mut t = ContactTracker::new();
    assert!(!t.on_contact_end());
    assert_eq!(t.count, 0);
    assert!(!t.is_active());
}

#[test]
fn tracker_applies_edge_stream() {
    let mut t = ContactTracker::new();
    let missed = t.apply_edges(&vec![true, false, false, true, true, false]);
    assert_eq!(missed, 1);
    assert_eq!(t.count, 1);
    assert!(t.is_active());
}

#[test]
fn on_ground_follows_count() {
    let mut g = GroundDetection::new();
    assert!(!g.on_ground());
    g.tracker.on_contact_begin();
    assert!(g.on_ground());
    g.tracker.on_contact_end();
    assert!(!g.on_ground());
}

#[test]
fn collisions_reach_their_trackers() {
    let mut g = GroundDetection::new();
    let mut c = Climber::new();
    assert!(route_collision(&CollisionEvent::Started(Role::Solid, Role::GroundSensor), &mut g, &mut c));
    assert_eq!(g.tracker.count, 1);
    assert_eq!(c.tracker.count, 0);
    assert!(route_collision(&CollisionEvent::Started(Role::Player, Role::Climbable), &mut g, &mut c));
    assert_eq!(c.tracker.count, 1);
    assert!(route_collision(&CollisionEvent::Started(Role::Player, Role::Goal), &mut g, &mut c));
    assert_eq!(g.tracker.count, 1);
    assert_eq!(c.tracker.count, 1);
    assert!(route_collision(&CollisionEvent::Stopped(Role::GroundSensor, Role::Solid), &mut g, &mut c));
    assert_eq!(g.tracker.count, 0);
    assert!(!route_collision(&CollisionEvent::Stopped(Role::GroundSensor, Role::Solid), &mut g, &mut c));
    assert_eq!(g.tracker.count, 0);
    assert!(route_collision(&CollisionEvent::Stopped(Role::Climbable, Role::Player), &mut g, &mut c));
    assert_eq!(c.tracker.count, 0);
}

#[test]
fn goal_start_is_recognised() {
    assert!(CollisionEvent::Started(Role::Goal, Role::Player).goal_reached());
    assert!(CollisionEvent::Started(Role::Player, Role::Goal).goal_reached());
    assert!(!CollisionEvent::Stopped(Role::Player, Role::Goal).goal_reached());
    assert!(!CollisionEvent::Started(Role::GroundSensor, Role::Goal).goal_reached());
}

#[test]
fn horizontal_velocity_and_facing() {
    let mut c = Climber::new();
    let g = GroundDetection::new();
    let mut p = Player::new();
    let mut input = no_input();
    input.left = true;
    let r = player_movement(&input, &mut c, &g, &mut p);
    assert_eq!(r.vx, -MOVE_SPEED);
    assert_eq!(p.facing, Facing::Left);
    assert_eq!(r.vy, None);
    assert!(!r.jumped);

    let r = player_movement(&no_input(), &mut c, &g, &mut p);
    assert_eq!(r.vx, 0);
    assert_eq!(p.facing, Facing::Left);

    input.left = false;
    input.right = true;
    let r = player_movement(&input, &mut c, &g, &mut p);
    assert_eq!(r.vx, 200);
    assert_eq!(p.facing, Facing::Right);
}

#[test]
fn both_directions_held_face_right() {
    let mut c = Climber::new();
    let g = GroundDetection::new();
    let mut p = Player { facing: Facing::Left };
    let mut input = no_input();
    input.left = true;
    input.right = true;
    let r = player_movement(&input, &mut c, &g, &mut p);
    assert_eq!(r.vx, 0);
    assert_eq!(p.facing, Facing::Right);
}

#[test]
fn latch_released_off_ladder_despite_up_held() {
    let mut c = Climber::new();
    c.climbing = true;
    let g = GroundDetection::new();
    let mut p = Player::new();
    let mut input = no_input();
    input.up = true;
    input.up_just_pressed = true;
    let r = player_movement(&input, &mut c, &g, &mut p);
    assert!(!c.climbing);
    assert_eq!(r.vy, None);
}

#[test]
fn fresh_press_on_ladder_grabs_it() {
    let mut c = on_ladder(false);
    let g = GroundDetection::new();
    let mut p = Player::new();
    let mut input = no_input();
    input.up = true;
    let r = player_movement(&input, &mut c, &g, &mut p);
    assert!(!c.climbing);
    assert_eq!(r.vy, None);

    input.up_just_pressed = true;
    let r = player_movement(&input, &mut c, &g, &mut p);
    assert!(c.climbing);
    assert_eq!(r.vy, Some(MOVE_SPEED));

    let mut down = no_input();
    down.down = true;
    let r = player_movement(&down, &mut c, &g, &mut p);
    assert!(c.climbing);
    assert_eq!(r.vy, Some(-200));

    let r = player_movement(&no_input(), &mut c, &g, &mut p);
    assert_eq!(r.vy, Some(0));
}

#[test]
fn jump_needs_ground_or_ladder() {
    let mut c = Climber::new();
    let air = GroundDetection::new();
    let mut p = Player::new();
    let mut input = no_input();
    input.jump_just_pressed = true;
    let r = player_movement(&input, &mut c, &air, &mut p);
    assert!(!r.jumped);
    assert_eq!(r.vy, None);

    let r = player_movement(&input, &mut c, &grounded(), &mut p);
    assert!(r.jumped);
    assert_eq!(r.vy, Some(JUMP_IMPULSE));
    assert_eq!(r.vy, Some(400));
}

#[test]
fn jump_from_ladder_releases_latch() {
    let mut c = on_ladder(true);
    let air = GroundDetection::new();
    let mut p = Player::new();
    let mut input = no_input();
    input.jump_just_pressed = true;
    input.up = true;
    let r = player_movement(&input, &mut c, &air, &mut p);
    assert!(r.jumped);
    assert_eq!(r.vy, Some(400));
    assert!(!c.climbing);
}

#[test]
fn held_jump_fires_once() {
    let mut c = Climber::new();
    let g = grounded();
    let mut p = Player::new();
    let mut input = no_input();
    input.jump_just_pressed = true;
    assert!(player_movement(&input, &mut c, &g, &mut p).jumped);
    input.jump_just_pressed = false;
    assert!(!player_movement(&input, &mut c, &g, &mut p).jumped);
    assert!(!player_movement(&input, &mut c, &g, &mut p).jumped);
}

#[test]
fn axis_folds_into_actions() {
    assert_eq!(axis_command(AxisZone::Negative, false, true), AxisCommand::PressNegative);
    assert_eq!(axis_command(AxisZone::Positive, true, false), AxisCommand::PressPositive);
    assert_eq!(axis_command(AxisZone::Neutral, false, false), AxisCommand::ReleaseBoth);
    assert_eq!(axis_command(AxisZone::Neutral, true, false), AxisCommand::Keep);
    assert_eq!(axis_command(AxisZone::Neutral, false, true), AxisCommand::Keep);
}

#[test]
fn clip_table_rows() {
    assert_eq!(select_clip(true, false, false, true), AnimationClip::ClimbIdle);
    assert_eq!(select_clip(true, true, true, false), AnimationClip::Climb);
    assert_eq!(select_clip(false, true, true, true), AnimationClip::JumpUp);
    assert_eq!(select_clip(false, false, true, true), AnimationClip::JumpDown);
    assert_eq!(select_clip(false, false, false, true), AnimationClip::Idle);
    assert_eq!(select_clip(false, false, false, false), AnimationClip::Walk);
}

#[test]
fn clip_is_repeatable() {
    for bits in 0u8..16 {
        let c = bits & 1 != 0;
        let u = bits & 2 != 0;
        let f = bits & 4 != 0;
        let i = bits & 8 != 0;
        assert_eq!(select_clip(c, u, f, i), select_clip(c, u, f, i));
    }
}

#[test]
fn rising_in_air_is_jump_up() {
    assert_eq!(set_animation(false, false, 0, 5), AnimationClip::JumpUp);
}

#[test]
fn standing_still_is_idle() {
    assert_eq!(set_animation(true, false, 0, 0), AnimationClip::Idle);
}

#[test]
fn still_on_ladder_is_climb_idle() {
    assert_eq!(set_animation(false, true, 0, 0), AnimationClip::ClimbIdle);
    assert_eq!(set_animation(true, true, 0, 0), AnimationClip::ClimbIdle);
}

#[test]
fn other_motion_clips() {
    assert_eq!(set_animation(false, false, 200, -30), AnimationClip::JumpDown);
    assert_eq!(set_animation(false, false, 0, 0), AnimationClip::JumpDown);
    assert_eq!(set_animation(true, false, 200, 0), AnimationClip::Walk);
    assert_eq!(set_animation(false, true, 0, 200), AnimationClip::Climb);
}

#[test]
fn clip_frames_table() {
    assert_eq!(AnimationClip::Idle.frames(), FrameRange { first: 0, last: 3 });
    assert_eq!(AnimationClip::Walk.frames(), FrameRange { first: 6, last: 11 });
    assert_eq!(AnimationClip::Climb.frames(), FrameRange { first: 12, last: 15 });
    assert_eq!(AnimationClip::ClimbIdle.frames(), FrameRange { first: 12, last: 12 });
    assert_eq!(AnimationClip::Death.frames(), FrameRange { first: 24, last: 25 });
    assert_eq!(AnimationClip::JumpUp.frames(), FrameRange { first: 30, last: 30 });
    assert_eq!(AnimationClip::JumpDown.frames(), FrameRange { first: 31, last: 31 });
}

#[test]
fn animation_indices_cycle() {
    let mut a = AnimationIndices::new();
    assert_eq!((a.first(), a.last()), (0, 3));
    a.set(AnimationClip::Walk.frames());
    assert_eq!((a.first(), a.last()), (6, 11));
    assert_eq!(a.next_frame(6), 7);
    assert_eq!(a.next_frame(10), 11);
    assert_eq!(a.next_frame(11), 6);
    assert_eq!(a.next_frame(2), 6);
    assert_eq!(a.next_frame(40), 6);
}

#[test]
fn facing_flips_sprite() {
    assert!(Facing::Left.flip_x());
    assert!(!Facing::Right.flip_x());
}

#[test]
fn int_grid_values_codes() {
    assert_eq!(IntGridValues::from(1), IntGridValues::Dirt);
    assert_eq!(IntGridValues::from(2), IntGridValues::Ladder);
    assert_eq!(IntGridValues::from(3), IntGridValues::Stone);
    assert_eq!(IntGridValues::from(4), IntGridValues::Goal);
    assert_eq!(IntGridValues::from(5), IntGridValues::SpawnPoint);
    assert_eq!(IntGridValues::from(0), IntGridValues::Dirt);
    assert_eq!(IntGridValues::from(99), IntGridValues::Dirt);
    assert_eq!(IntGridValues::SpawnPoint.code(), 5);
    assert_eq!(IntGridValues::Goal.code(), 4);
}

#[test]
fn balanced_stream_counts_open_overlaps() {
    let mut t = ContactTracker::new();
    let missed = t.apply_edges(&vec![true, true, false, true, false]);
    assert_eq!(missed, 0);
    assert_eq!(t.count, 1);
    let mut g = GroundDetection::new();
    g.tracker.apply_edges(&vec![true, false]);
    assert!(!g.on_ground());
    g.tracker.apply_edges(&vec![true, true, false]);
    assert!(g.on_ground());
}
