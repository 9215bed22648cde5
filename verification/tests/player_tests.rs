use character_controller::player::{
    body_shape, collider_change, is_grounded, next_state, plan_move, speed_class, starts_jump,
    vertical_contact, BodyShape, ColliderChange, DoublePress, HorizontalMotion, Lift,
    MoveControls, MoveKeys, PlayerState, SpeedClass, StepInput, VerticalContact, VerticalMotion,
    DIVE_GRAVITY_FACTOR, DOUBLE_PRESS_WINDOW_MS,
};

fn keys(forward: bool, back: bool, left: bool, right: bool) -> MoveKeys {
    MoveKeys { forward, back, left, right }
}

fn no_keys() -> MoveKeys {
    keys(false, false, false, false)
}

fn controls(k: MoveKeys, crouch: bool, dash: bool, jump: bool) -> MoveControls {
    MoveControls {
        keys: k,
        crouch_held: crouch,
        dash_held: dash,
        jump_pressed: jump,
        jump_held: jump,
        flight_pressed: false,
        jump_double_press: false,
        crouch_double_press: false,
    }
}

/// On the ground, not in flight, room to stand.
fn ground(crouch: bool, can_stand: bool, dash: bool, has_input: bool) -> StepInput {
    StepInput {
        grounded: true,
        falling: false,
        can_stand,
        has_input,
        crouch_held: crouch,
        dash_held: dash,
        enter_flight: false,
        leave_flight: false,
    }
}

fn air(falling: bool) -> StepInput {
    StepInput {
        grounded: false,
        falling,
        can_stand: true,
        has_input: false,
        crouch_held: false,
        dash_held: false,
        enter_flight: false,
        leave_flight: false,
    }
}

const ALL: [PlayerState; 9] = [
    PlayerState::Idle,
    PlayerState::Walking,
    PlayerState::Running,
    PlayerState::Jumping,
    PlayerState::Falling,
    PlayerState::CrouchIdle,
    PlayerState::CrouchWalking,
    PlayerState::Floating,
    PlayerState::Flying,
];

#[test]
fn default_state_is_idle() {
    assert_eq!(PlayerState::default(), PlayerState::Idle);
}

#[test]
fn crouching_and_flight_states() {
    for s in ALL {
        assert_eq!(
            s.is_crouching(),
            matches!(s, PlayerState::CrouchIdle | PlayerState::CrouchWalking)
        );
        assert_eq!(s.is_in_flight(), matches!(s, PlayerState::Floating | PlayerState::Flying));
    }
}

#[test]
fn key_axes_and_cancelling() {
    assert_eq!(keys(true, false, false, false).axes(), (0, -1));
    assert_eq!(keys(false, true, false, false).axes(), (0, 1));
    assert_eq!(keys(false, false, true, false).axes(), (-1, 0));
    assert_eq!(keys(false, false, false, true).axes(), (1, 0));
    assert_eq!(keys(true, false, false, true).axes(), (1, -1));
    assert_eq!(keys(true, true, false, false).axes(), (0, 0));
    assert!(!keys(true, true, true, true).has_direction());
    assert!(!no_keys().has_direction());
    assert!(keys(true, true, true, false).has_direction());
}

#[test]
fn airborne_rising_is_jumping_and_descending_is_falling() {
    for s in [PlayerState::Idle, PlayerState::Running, PlayerState::CrouchIdle, PlayerState::Jumping] {
        assert_eq!(next_state(s, &air(false)), PlayerState::Jumping);
        assert_eq!(next_state(s, &air(true)), PlayerState::Falling);
    }
}

#[test]
fn grounded_transitions() {
    assert_eq!(next_state(PlayerState::Falling, &ground(false, true, false, false)), PlayerState::Idle);
    assert_eq!(next_state(PlayerState::Idle, &ground(false, true, false, true)), PlayerState::Walking);
    assert_eq!(next_state(PlayerState::Idle, &ground(false, true, true, true)), PlayerState::Running);
    assert_eq!(next_state(PlayerState::Idle, &ground(false, true, true, false)), PlayerState::Idle);
    assert_eq!(next_state(PlayerState::Running, &ground(true, true, true, true)), PlayerState::CrouchWalking);
    assert_eq!(next_state(PlayerState::Idle, &ground(true, true, false, false)), PlayerState::CrouchIdle);
}

#[test]
fn no_headroom_keeps_crouching() {
    assert_eq!(next_state(PlayerState::CrouchIdle, &ground(false, false, false, false)), PlayerState::CrouchIdle);
    assert_eq!(next_state(PlayerState::CrouchIdle, &ground(false, false, true, true)), PlayerState::CrouchWalking);
    assert_eq!(next_state(PlayerState::CrouchWalking, &ground(false, true, false, true)), PlayerState::Walking);
    assert_eq!(next_state(PlayerState::Walking, &ground(false, false, false, true)), PlayerState::Walking);
}

#[test]
fn flight_is_entered_held_boosted_and_left() {
    let mut i = air(false);
    i.enter_flight = true;
    assert_eq!(next_state(PlayerState::Jumping, &i), PlayerState::Floating);
    let mut g = ground(false, true, false, false);
    g.enter_flight = true;
    assert_eq!(next_state(PlayerState::Idle, &g), PlayerState::Floating);
    // in flight: kept, with Shift boosting to Flying
    let mut f = air(true);
    f.dash_held = true;
    assert_eq!(next_state(PlayerState::Floating, &f), PlayerState::Flying);
    f.dash_held = false;
    assert_eq!(next_state(PlayerState::Flying, &f), PlayerState::Floating);
    // a grounded flyer keeps flying until asked to leave
    assert_eq!(next_state(PlayerState::Floating, &ground(true, true, false, false)), PlayerState::Floating);
    // leaving flight
    let mut l = air(true);
    l.leave_flight = true;
    assert_eq!(next_state(PlayerState::Flying, &l), PlayerState::Falling);
    let mut lg = ground(true, true, false, false);
    lg.leave_flight = true;
    assert_eq!(next_state(PlayerState::Floating, &lg), PlayerState::CrouchIdle);
    // a double crouch outside flight changes nothing about flight
    assert_eq!(next_state(PlayerState::Idle, &lg), PlayerState::CrouchIdle);
}

#[test]
fn speeds_and_shapes() {
    assert_eq!(speed_class(PlayerState::Running), SpeedClass::Dash);
    assert_eq!(speed_class(PlayerState::Flying), SpeedClass::Dash);
    assert_eq!(speed_class(PlayerState::Floating), SpeedClass::Normal);
    assert_eq!(speed_class(PlayerState::CrouchIdle), SpeedClass::Crouch);
    assert_eq!(speed_class(PlayerState::CrouchWalking), SpeedClass::Crouch);
    assert_eq!(speed_class(PlayerState::Walking), SpeedClass::Normal);
    assert_eq!(speed_class(PlayerState::Falling), SpeedClass::Normal);
    assert_eq!(body_shape(PlayerState::CrouchWalking), BodyShape::Crouched);
    assert_eq!(body_shape(PlayerState::Idle), BodyShape::Standing);
    assert_eq!(body_shape(PlayerState::Flying), BodyShape::Standing);
}

#[test]
fn grounding_probe() {
    assert!(!is_grounded(true, true));
    assert!(!is_grounded(true, false));
    assert!(is_grounded(false, true));
    assert!(!is_grounded(false, false));
}

#[test]
fn jump_rules() {
    assert!(starts_jump(PlayerState::Idle, true, true));
    assert!(!starts_jump(PlayerState::Idle, true, false));
    assert!(!starts_jump(PlayerState::CrouchIdle, true, true));
    assert!(!starts_jump(PlayerState::Floating, true, true));
    assert!(!starts_jump(PlayerState::Running, false, true));
}

#[test]
fn plan_on_ground_with_jump() {
    let c = controls(keys(true, false, false, false), false, true, true);
    let p = plan_move(PlayerState::Idle, &c, true, true, true);
    assert_eq!(p.state, PlayerState::Running);
    assert_eq!(p.speed, SpeedClass::Dash);
    assert_eq!(p.horizontal, HorizontalMotion::FollowInput);
    assert_eq!(p.vertical, VerticalMotion::Land);
    assert!(p.jump);
    assert_eq!(p.shape, BodyShape::Standing);
}

#[test]
fn plan_crouched_cannot_jump() {
    let c = controls(no_keys(), true, false, true);
    let p = plan_move(PlayerState::Walking, &c, true, true, false);
    assert_eq!(p.state, PlayerState::CrouchIdle);
    assert_eq!(p.speed, SpeedClass::Crouch);
    assert_eq!(p.vertical, VerticalMotion::Gravity);
    assert!(!p.jump);
    assert_eq!(p.shape, BodyShape::Crouched);
}

#[test]
fn plan_rising_in_the_air() {
    let c = controls(keys(false, true, false, false), true, true, true);
    let p = plan_move(PlayerState::Running, &c, false, true, false);
    assert_eq!(p.state, PlayerState::Jumping);
    assert_eq!(p.horizontal, HorizontalMotion::Drift);
    assert_eq!(p.vertical, VerticalMotion::Gravity);
    assert!(!p.jump);
}

#[test]
fn plan_falling_and_diving() {
    let p = plan_move(PlayerState::Jumping, &controls(no_keys(), false, false, false), false, true, true);
    assert_eq!(p.state, PlayerState::Falling);
    assert_eq!(p.vertical, VerticalMotion::Gravity);
    let p = plan_move(PlayerState::Falling, &controls(no_keys(), false, true, false), false, true, true);
    assert_eq!(p.state, PlayerState::Falling);
    assert_eq!(p.vertical, VerticalMotion::Dive);
    assert_eq!(DIVE_GRAVITY_FACTOR, 3);
}

#[test]
fn plan_in_flight_hovers() {
    let mut c = controls(keys(true, false, false, false), false, false, false);
    c.flight_pressed = true;
    let p = plan_move(PlayerState::Falling, &c, false, true, true);
    assert_eq!(p.state, PlayerState::Floating);
    assert_eq!(p.horizontal, HorizontalMotion::FollowInput);
    assert_eq!(p.vertical, VerticalMotion::Hover(Lift::Hold));
    let mut c = controls(no_keys(), false, true, true);
    c.jump_pressed = false;
    let p = plan_move(PlayerState::Floating, &c, false, true, false);
    assert_eq!(p.state, PlayerState::Flying);
    assert_eq!(p.speed, SpeedClass::Dash);
    assert_eq!(p.vertical, VerticalMotion::Hover(Lift::Ascend));
    let c = controls(no_keys(), true, false, false);
    let p = plan_move(PlayerState::Floating, &c, true, true, false);
    assert_eq!(p.state, PlayerState::Floating);
    assert_eq!(p.vertical, VerticalMotion::Hover(Lift::Descend));
    assert!(!p.jump);
}

#[test]
fn double_jump_press_enters_flight_and_double_crouch_leaves() {
    let mut c = controls(no_keys(), false, false, true);
    c.jump_double_press = true;
    assert_eq!(plan_move(PlayerState::Jumping, &c, false, true, false).state, PlayerState::Floating);
    let mut c = controls(no_keys(), true, false, false);
    c.crouch_double_press = true;
    assert_eq!(plan_move(PlayerState::Floating, &c, false, true, true).state, PlayerState::Falling);
}

#[test]
fn double_press_detection() {
    let mut d = DoublePress::default();
    assert!(!d.update(true, 1000));
    assert_eq!(d.last_press_ms, Some(1000));
    assert!(!d.update(false, 1100));
    assert!(d.update(true, 1000 + DOUBLE_PRESS_WINDOW_MS));
    assert_eq!(d.last_press_ms, None);
    // a third quick press starts over
    assert!(!d.update(true, 1350));
    // too slow
    assert!(!d.update(true, 1350 + DOUBLE_PRESS_WINDOW_MS + 1));
    assert_eq!(d.last_press_ms, Some(1651));
}

#[test]
fn vertical_contacts() {
    assert_eq!(vertical_contact(true, false), VerticalContact::Clear);
    assert_eq!(vertical_contact(false, false), VerticalContact::Clear);
    assert_eq!(vertical_contact(true, true), VerticalContact::Ceiling);
    assert_eq!(vertical_contact(false, true), VerticalContact::Floor);
    assert!(VerticalContact::Floor.stops_vertical_speed());
    assert!(VerticalContact::Ceiling.stops_vertical_speed());
    assert!(!VerticalContact::Clear.stops_vertical_speed());
}

#[test]
fn collider_changes() {
    assert_eq!(collider_change(false, PlayerState::CrouchIdle), (ColliderChange::Shrink, true));
    assert_eq!(collider_change(true, PlayerState::Idle), (ColliderChange::Grow, false));
    assert_eq!(collider_change(true, PlayerState::CrouchWalking), (ColliderChange::Keep, true));
    assert_eq!(collider_change(false, PlayerState::Flying), (ColliderChange::Keep, false));
}

#[test]
fn collider_round_trip_returns_to_start() {
    let states = [
        PlayerState::Walking,
        PlayerState::CrouchIdle,
        PlayerState::CrouchWalking,
        PlayerState::Falling,
        PlayerState::CrouchIdle,
        PlayerState::Floating,
        PlayerState::Idle,
    ];
    let mut crouched = false;
    let mut shift: i32 = 0;
    for s in states {
        let (change, now) = collider_change(crouched, s);
        shift += match change {
            ColliderChange::Keep => 0,
            ColliderChange::Shrink => -1,
            ColliderChange::Grow => 1,
        };
        crouched = now;
        assert_eq!(shift, if crouched { -1 } else { 0 });
    }
    assert_eq!(shift, 0);
}
