use vstd::prelude::*;

verus! {

/// The movement state of the player character.
#[derive(PartialEq, Eq, Structural, Clone, Copy, Debug)]
pub enum PlayerState {
    Idle,
    Walking,
    Running,
    Jumping,
    Falling,
    CrouchIdle,
    CrouchWalking,
    Floating,
    Flying,
}

impl Default for PlayerState {
    /// A freshly spawned player stands idle.
    fn default() -> (s: Self)
        ensures
            s == PlayerState::Idle,
    {
        PlayerState::Idle
    }
}

impl PlayerState {
    /// The two crouching states.
    pub open spec fn spec_is_crouching(self) -> bool {
        self == PlayerState::CrouchIdle || self == PlayerState::CrouchWalking
    }

    /// The two flight states.
    pub open spec fn spec_is_in_flight(self) -> bool {
        self == PlayerState::Floating || self == PlayerState::Flying
    }

    /// Whether the state is one of the crouching states.
    pub fn is_crouching(&self) -> (b: bool)
        ensures
            b == self.spec_is_crouching(),
    {
        match self {
            PlayerState::CrouchIdle | PlayerState::CrouchWalking => true,
            _ => false,
        }
    }

    /// Whether the state is one of the flight states.
    pub fn is_in_flight(&self) -> (b: bool)
        ensures
            b == self.spec_is_in_flight(),
    {
        match self {
            PlayerState::Floating | PlayerState::Flying => true,
            _ => false,
        }
    }
}

/// What one update of the state machine looks at.
#[derive(Clone, Copy, Debug)]
pub struct StepInput {
    /// A surface was found under the feet.
    pub grounded: bool,
    /// The vertical velocity points down.
    pub falling: bool,
    /// There is room above the head to stand up.
    pub can_stand: bool,
    /// The movement keys give a direction.
    pub has_input: bool,
    /// The crouch key is down.
    pub crouch_held: bool,
    /// The dash key is down.
    pub dash_held: bool,
    /// Flight was asked for (the flight key, or a double press of jump).
    pub enter_flight: bool,
    /// Leaving flight was asked for (a double press of crouch).
    pub leave_flight: bool,
}

/// Whether the player is in flight after the update: flight is kept until
/// leaving it is asked for, and entered when it is asked for.
pub open spec fn stays_in_flight(current: PlayerState, input: StepInput) -> bool {
    if current.spec_is_in_flight() {
        !input.leave_flight
    } else {
        input.enter_flight
    }
}

/// The state the player settles in after one update, read as a chain of
/// decisions: flight, airborne, crouch key, no room to stand up, dash,
/// direction.
pub open spec fn settled_state(current: PlayerState, input: StepInput) -> PlayerState {
    if stays_in_flight(current, input) {
        if input.dash_held {
            PlayerState::Flying
        } else {
            PlayerState::Floating
        }
    } else if !input.grounded {
        if input.falling {
            PlayerState::Falling
        } else {
            PlayerState::Jumping
        }
    } else if input.crouch_held || (current.spec_is_crouching() && !input.can_stand) {
        if input.has_input {
            PlayerState::CrouchWalking
        } else {
            PlayerState::CrouchIdle
        }
    } else if input.dash_held && input.has_input {
        PlayerState::Running
    } else if input.has_input {
        PlayerState::Walking
    } else {
        PlayerState::Idle
    }
}

/// The state the player moves into in one update.
pub fn next_state(current: PlayerState, input: &StepInput) -> (next: PlayerState)
    ensures
        next == settled_state(current, *input),
        // flight: entered on request, kept until leaving is asked for,
        // boosted (Flying) exactly while dash is held
        next.spec_is_in_flight() <==> stays_in_flight(current, *input),
        // only leaving flight ends flight; asking to enter it again changes nothing
        (current.spec_is_in_flight() && !input.leave_flight) ==> next.spec_is_in_flight(),
        (current.spec_is_in_flight() && input.leave_flight) ==> !next.spec_is_in_flight(),
        (!current.spec_is_in_flight() && input.enter_flight) ==> next.spec_is_in_flight(),
        (!current.spec_is_in_flight() && !input.enter_flight) ==> !next.spec_is_in_flight(),
        (next == PlayerState::Flying) <==> (next.spec_is_in_flight() && input.dash_held),
        // out of flight and in the air: rising is jumping, descending is falling
        (next == PlayerState::Falling) <==> (!next.spec_is_in_flight() && !input.grounded
            && input.falling),
        (next == PlayerState::Jumping) <==> (!next.spec_is_in_flight() && !input.grounded
            && !input.falling),
        // on the ground the player crouches while the key is held, and keeps
        // crouching while there is no room to stand up
        next.spec_is_crouching() <==> (!next.spec_is_in_flight() && input.grounded && (
        input.crouch_held || (current.spec_is_crouching() && !input.can_stand))),
        // dashing needs a direction and a standing player on the ground
        (next == PlayerState::Running) <==> (!next.spec_is_in_flight() && input.grounded
            && !next.spec_is_crouching() && input.dash_held && input.has_input),
        (next == PlayerState::Walking) <==> (!next.spec_is_in_flight() && input.grounded
            && !next.spec_is_crouching() && !input.dash_held && input.has_input),
        (next == PlayerState::Idle) <==> (!next.spec_is_in_flight() && input.grounded
            && !next.spec_is_crouching() && !input.has_input),
        (next == PlayerState::CrouchWalking) <==> (next.spec_is_crouching() && input.has_input),
        (next == PlayerState::CrouchIdle) <==> (next.spec_is_crouching() && !input.has_input),
{
    let in_flight = if current.is_in_flight() {
        !input.leave_flight
    } else {
        input.enter_flight
    };
    if in_flight {
        if input.dash_held {
            PlayerState::Flying
        } else {
            PlayerState::Floating
        }
    } else if !input.grounded {
        if input.falling {
            PlayerState::Falling
        } else {
            PlayerState::Jumping
        }
    } else if input.crouch_held || (current.is_crouching() && !input.can_stand) {
        if input.has_input {
            PlayerState::CrouchWalking
        } else {
            PlayerState::CrouchIdle
        }
    } else if input.dash_held && input.has_input {
        PlayerState::Running
    } else if input.has_input {
        PlayerState::Walking
    } else {
        PlayerState::Idle
    }
}

/// The longest gap, in milliseconds, between two presses of a key that
/// still counts as a double press.
pub const DOUBLE_PRESS_WINDOW_MS: u64 = 300;

/// Tracks the presses of one key to recognise double presses.
#[derive(Clone, Copy, Debug)]
pub struct DoublePress {
    /// When the key was last pressed, unless that press already completed
    /// a double press.
    pub last_press_ms: Option<u64>,
}

impl Default for DoublePress {
    /// No press seen yet.
    fn default() -> (d: Self)
        ensures
            d.last_press_ms is None,
    {
        DoublePress { last_press_ms: None }
    }
}

/// Whether a press at `now_ms` completes a double press after a pending
/// press at `last`: it must come no earlier and at most the window later.
pub open spec fn completes_double_press(last: Option<u64>, pressed: bool, now_ms: u64) -> bool {
    pressed && last is Some && last->0 <= now_ms && now_ms - last->0 <= DOUBLE_PRESS_WINDOW_MS
}

/// The pending press after an update: a completed double press is used up,
/// another press becomes the pending one, otherwise nothing changes.
pub open spec fn pending_after(last: Option<u64>, pressed: bool, now_ms: u64) -> Option<u64> {
    if completes_double_press(last, pressed, now_ms) {
        None
    } else if pressed {
        Some(now_ms)
    } else {
        last
    }
}

impl DoublePress {
    /// Feeds one update (whether the key was just pressed, and the time in
    /// milliseconds); returns whether this press completes a double press.
    pub fn update(&mut self, pressed: bool, now_ms: u64) -> (double: bool)
        ensures
            double == completes_double_press(old(self).last_press_ms, pressed, now_ms),
            final(self).last_press_ms == pending_after(old(self).last_press_ms, pressed, now_ms),
            // an update without a press changes nothing and reports nothing
            !pressed ==> final(self).last_press_ms == old(self).last_press_ms && !double,
            // a press either completes a double press and is used up, or becomes pending
            pressed ==> (final(self).last_press_ms is None <==> double),
            (pressed && !double) ==> final(self).last_press_ms == Some(now_ms),
            // a double press needs a pending press at most the window earlier
            double ==> (old(self).last_press_ms matches Some(t) && t <= now_ms && now_ms - t
                <= DOUBLE_PRESS_WINDOW_MS),
    {
        let double = match self.last_press_ms {
            Some(last) => pressed && last <= now_ms && now_ms - last <= DOUBLE_PRESS_WINDOW_MS,
            None => false,
        };
        if double {
            self.last_press_ms = None;
        } else if pressed {
            self.last_press_ms = Some(now_ms);
        }
        double
    }
}

/// Three quick presses make one double press, not two: the press that
/// follows a completed double press never completes another one.
pub proof fn lemma_double_press_used_up(last: Option<u64>, t1: u64, t2: u64)
    requires
        completes_double_press(last, true, t1),
    ensures
        !completes_double_press(pending_after(last, true, t1), true, t2),
{
}

/// The four movement keys of one frame.
#[derive(Clone, Copy, Debug)]
pub struct MoveKeys {
    pub forward: bool,
    pub back: bool,
    pub left: bool,
    pub right: bool,
}

pub open spec fn key_value(pressed: bool) -> int {
    if pressed {
        1
    } else {
        0
    }
}

impl MoveKeys {
    /// Sideways component of the raw direction: right is positive.
    pub open spec fn spec_axis_x(self) -> int {
        key_value(self.right) - key_value(self.left)
    }

    /// Depth component of the raw direction: back is positive, forward negative.
    pub open spec fn spec_axis_z(self) -> int {
        key_value(self.back) - key_value(self.forward)
    }

    /// Opposite keys cancel; a direction exists when some axis is non-zero.
    pub open spec fn spec_has_direction(self) -> bool {
        self.spec_axis_x() != 0 || self.spec_axis_z() != 0
    }

    /// The raw direction `(x, z)` that the keys give, each component in
    /// `-1..=1`, before it is normalised and turned to the camera's yaw.
    pub fn axes(&self) -> (a: (i8, i8))
        ensures
            a.0 == self.spec_axis_x(),
            a.1 == self.spec_axis_z(),
            (a.0 == 1) <==> (self.right && !self.left),
            (a.0 == -1) <==> (self.left && !self.right),
            (a.0 == 0) <==> (self.left == self.right),
            (a.1 == 1) <==> (self.back && !self.forward),
            (a.1 == -1) <==> (self.forward && !self.back),
            (a.1 == 0) <==> (self.forward == self.back),
    {
        let mut x: i8 = 0;
        let mut z: i8 = 0;
        if self.forward {
            z = z - 1;
        }
        if self.back {
            z = z + 1;
        }
        if self.left {
            x = x - 1;
        }
        if self.right {
            x = x + 1;
        }
        (x, z)
    }

    /// Whether the keys give a direction to move in.
    pub fn has_direction(&self) -> (b: bool)
        ensures
            b == self.spec_has_direction(),
            b <==> (self.forward != self.back || self.left != self.right),
    {
        let (x, z) = self.axes();
        x != 0 || z != 0
    }
}

/// The keys that steer one update of the player.
#[derive(Clone, Copy, Debug)]
pub struct MoveControls {
    pub keys: MoveKeys,
    /// Crouch (descend in flight) key held.
    pub crouch_held: bool,
    /// Dash (boost in flight) key held.
    pub dash_held: bool,
    /// Jump key just pressed.
    pub jump_pressed: bool,
    /// Jump key held (ascend in flight).
    pub jump_held: bool,
    /// Flight key just pressed.
    pub flight_pressed: bool,
    /// This jump press completed a double press.
    pub jump_double_press: bool,
    /// This crouch press completed a double press.
    pub crouch_double_press: bool,
}

/// Which of the three configured speeds applies.
#[derive(PartialEq, Eq, Structural, Clone, Copy, Debug)]
pub enum SpeedClass {
    Normal,
    Dash,
    Crouch,
}

/// The capsule the player occupies: full height or crouched height.
#[derive(PartialEq, Eq, Structural, Clone, Copy, Debug)]
pub enum BodyShape {
    Standing,
    Crouched,
}

/// How the horizontal velocity is updated: on the ground and in flight it is
/// set from the input direction and the speed; otherwise (in the air) it
/// keeps drifting and slowly decays.
#[derive(PartialEq, Eq, Structural, Clone, Copy, Debug)]
pub enum HorizontalMotion {
    FollowInput,
    Drift,
}

/// Which way a flying player moves vertically.
#[derive(PartialEq, Eq, Structural, Clone, Copy, Debug)]
pub enum Lift {
    Ascend,
    Descend,
    Hold,
}

/// How the vertical velocity is updated before a jump is considered.
#[derive(PartialEq, Eq, Structural, Clone, Copy, Debug)]
pub enum VerticalMotion {
    /// A grounded player that was falling lands: vertical speed reset to zero.
    Land,
    /// Gravity, with the fall speed limited to the terminal speed.
    Gravity,
    /// Dive: `DIVE_GRAVITY_FACTOR` times gravity, with the fall speed limited
    /// to the (higher) dive terminal speed.
    Dive,
    /// In flight there is no gravity: the vertical speed follows the lift.
    Hover(Lift),
}

/// How many times gravity pulls a diving player.
pub const DIVE_GRAVITY_FACTOR: u32 = 3;

/// What the vertical shape cast of one update ran into.
#[derive(PartialEq, Eq, Structural, Clone, Copy, Debug)]
pub enum VerticalContact {
    Clear,
    Floor,
    Ceiling,
}

/// Everything the physics step of one update needs to know.
#[derive(Clone, Copy, Debug)]
pub struct MovePlan {
    pub state: PlayerState,
    pub speed: SpeedClass,
    pub horizontal: HorizontalMotion,
    pub vertical: VerticalMotion,
    pub jump: bool,
    pub shape: BodyShape,
}

pub open spec fn spec_speed_class(state: PlayerState) -> SpeedClass {
    if state == PlayerState::Running || state == PlayerState::Flying {
        SpeedClass::Dash
    } else if state.spec_is_crouching() {
        SpeedClass::Crouch
    } else {
        SpeedClass::Normal
    }
}

pub open spec fn spec_body_shape(state: PlayerState) -> BodyShape {
    if state.spec_is_crouching() {
        BodyShape::Crouched
    } else {
        BodyShape::Standing
    }
}

/// The speed that goes with a state: the dash speed when running or flying,
/// the crouch speed in both crouching states, the normal speed otherwise.
pub fn speed_class(state: PlayerState) -> (c: SpeedClass)
    ensures
        c == spec_speed_class(state),
        (c == SpeedClass::Dash) <==> (state == PlayerState::Running || state
            == PlayerState::Flying),
        (c == SpeedClass::Crouch) <==> state.spec_is_crouching(),
{
    match state {
        PlayerState::Running | PlayerState::Flying => SpeedClass::Dash,
        PlayerState::CrouchIdle | PlayerState::CrouchWalking => SpeedClass::Crouch,
        _ => SpeedClass::Normal,
    }
}

/// The capsule that goes with a state: crouched in both crouching states.
pub fn body_shape(state: PlayerState) -> (b: BodyShape)
    ensures
        b == spec_body_shape(state),
        (b == BodyShape::Crouched) <==> state.spec_is_crouching(),
{
    if state.is_crouching() {
        BodyShape::Crouched
    } else {
        BodyShape::Standing
    }
}

/// Whether the player stands on something: never while moving upwards,
/// otherwise exactly when the downward probe hit a surface.
pub fn is_grounded(rising: bool, ground_hit: bool) -> (g: bool)
    ensures
        g == (!rising && ground_hit),
{
    if rising {
        false
    } else {
        ground_hit
    }
}

/// Whether a jump starts in this update: the jump key was just pressed and
/// the player stands on the ground (not crouching, not in flight).
pub fn starts_jump(state: PlayerState, jump_pressed: bool, grounded: bool) -> (j: bool)
    ensures
        j == (jump_pressed && grounded && !state.spec_is_crouching()
            && !state.spec_is_in_flight()),
{
    jump_pressed && grounded && !state.is_crouching() && !state.is_in_flight()
}

pub open spec fn spec_lift(up: bool, down: bool) -> Lift {
    if up && !down {
        Lift::Ascend
    } else if down && !up {
        Lift::Descend
    } else {
        Lift::Hold
    }
}

/// The vertical rule that goes with the new state.
pub open spec fn spec_vertical_motion(
    state: PlayerState,
    controls: MoveControls,
    grounded: bool,
    falling: bool,
) -> VerticalMotion {
    if state.spec_is_in_flight() {
        VerticalMotion::Hover(spec_lift(controls.jump_held, controls.crouch_held))
    } else if grounded && falling {
        VerticalMotion::Land
    } else if state == PlayerState::Falling && controls.dash_held {
        VerticalMotion::Dive
    } else {
        VerticalMotion::Gravity
    }
}

/// The state-machine input that one update's controls and probes give.
pub open spec fn step_input(
    controls: MoveControls,
    grounded: bool,
    can_stand: bool,
    falling: bool,
) -> StepInput {
    StepInput {
        grounded,
        falling,
        can_stand,
        has_input: controls.keys.spec_has_direction(),
        crouch_held: controls.crouch_held,
        dash_held: controls.dash_held,
        enter_flight: controls.flight_pressed || controls.jump_double_press,
        leave_flight: controls.crouch_double_press,
    }
}

/// The decisions of one update of the player controller.
///
/// `current` is the state before the update, `grounded` and `can_stand` are
/// the results of the ground and head-room probes, and `falling` tells
/// whether the vertical velocity is negative.
pub fn plan_move(
    current: PlayerState,
    controls: &MoveControls,
    grounded: bool,
    can_stand: bool,
    falling: bool,
) -> (plan: MovePlan)
    ensures
        plan.state == settled_state(current, step_input(*controls, grounded, can_stand, falling)),
        // the flight key or a double jump press enters flight, on the ground as
        // in the air; only a double crouch press leaves it
        (!current.spec_is_in_flight() && (controls.flight_pressed || controls.jump_double_press))
            ==> plan.state.spec_is_in_flight(),
        (!current.spec_is_in_flight() && !controls.flight_pressed && !controls.jump_double_press)
            ==> !plan.state.spec_is_in_flight(),
        (current.spec_is_in_flight() && !controls.crouch_double_press)
            ==> plan.state.spec_is_in_flight(),
        (current.spec_is_in_flight() && controls.crouch_double_press)
            ==> !plan.state.spec_is_in_flight(),
        // a standing player on the ground moves exactly when opposite keys do not cancel
        (!plan.state.spec_is_in_flight() && grounded && !plan.state.spec_is_crouching()) ==> ((
        plan.state == PlayerState::Walking || plan.state == PlayerState::Running) <==> (
        controls.keys.forward != controls.keys.back || controls.keys.left
            != controls.keys.right)),
        plan.speed == spec_speed_class(plan.state),
        plan.shape == spec_body_shape(plan.state),
        plan.horizontal == (if grounded || plan.state.spec_is_in_flight() {
            HorizontalMotion::FollowInput
        } else {
            HorizontalMotion::Drift
        }),
        plan.vertical == spec_vertical_motion(plan.state, *controls, grounded, falling),
        // diving needs a falling player holding dash
        (plan.vertical == VerticalMotion::Dive) <==> (plan.state == PlayerState::Falling
            && controls.dash_held),
        // no gravity in flight: jump rises, crouch sinks, both or neither hold
        (plan.vertical is Hover) <==> plan.state.spec_is_in_flight(),
        (plan.vertical == VerticalMotion::Hover(Lift::Ascend)) <==> (plan.state.spec_is_in_flight()
            && controls.jump_held && !controls.crouch_held),
        (plan.vertical == VerticalMotion::Hover(Lift::Descend)) <==> (
        plan.state.spec_is_in_flight() && controls.crouch_held && !controls.jump_held),
        // landing: out of flight, on the ground while the velocity pointed down
        (plan.vertical == VerticalMotion::Land) <==> (!plan.state.spec_is_in_flight() && grounded
            && falling),
        plan.jump == (controls.jump_pressed && grounded && !plan.state.spec_is_crouching()
            && !plan.state.spec_is_in_flight()),
        // a jump only ever starts from a standing state on the ground
        plan.jump ==> (plan.state == PlayerState::Idle || plan.state == PlayerState::Walking
            || plan.state == PlayerState::Running),
{
    let input = StepInput {
        grounded,
        falling,
        can_stand,
        has_input: controls.keys.has_direction(),
        crouch_held: controls.crouch_held,
        dash_held: controls.dash_held,
        enter_flight: controls.flight_pressed || controls.jump_double_press,
        leave_flight: controls.crouch_double_press,
    };
    let state = next_state(current, &input);
    let in_flight = state.is_in_flight();
    let horizontal = if grounded || in_flight {
        HorizontalMotion::FollowInput
    } else {
        HorizontalMotion::Drift
    };
    let vertical = if in_flight {
        let lift = if controls.jump_held && !controls.crouch_held {
            Lift::Ascend
        } else if controls.crouch_held && !controls.jump_held {
            Lift::Descend
        } else {
            Lift::Hold
        };
        VerticalMotion::Hover(lift)
    } else if grounded && falling {
        VerticalMotion::Land
    } else if state == PlayerState::Falling && controls.dash_held {
        VerticalMotion::Dive
    } else {
        VerticalMotion::Gravity
    };
    MovePlan {
        state,
        speed: speed_class(state),
        horizontal,
        vertical,
        jump: starts_jump(state, controls.jump_pressed, grounded),
        shape: body_shape(state),
    }
}

/// What the vertical cast ran into: nothing, the floor when moving down,
/// the ceiling when moving up (a zero vertical step counts as upwards).
pub fn vertical_contact(moving_up: bool, hit: bool) -> (c: VerticalContact)
    ensures
        c == (if !hit {
            VerticalContact::Clear
        } else if moving_up {
            VerticalContact::Ceiling
        } else {
            VerticalContact::Floor
        }),
{
    if !hit {
        VerticalContact::Clear
    } else if moving_up {
        VerticalContact::Ceiling
    } else {
        VerticalContact::Floor
    }
}

impl VerticalContact {
    /// Hitting the floor or the ceiling stops the vertical velocity (a head
    /// bumping into a ceiling loses its upward speed); a clear step keeps it.
    pub fn stops_vertical_speed(&self) -> (b: bool)
        ensures
            b == (*self == VerticalContact::Floor || *self == VerticalContact::Ceiling),
    {
        match self {
            VerticalContact::Clear => false,
            _ => true,
        }
    }
}

/// Flight ends only when leaving it is asked for: a player in flight who
/// did not ask to leave is still Floating or Flying after the update, whatever
/// else was pressed (asking to enter flight again included); one who asked to
/// leave is out of flight; out of flight, flight starts exactly on request.
pub proof fn lemma_flight_ends_only_on_request(current: PlayerState, input: StepInput)
    ensures
        ({
            let next = settled_state(current, input);
            &&& (current.spec_is_in_flight() && !input.leave_flight) ==> (next
                == PlayerState::Floating || next == PlayerState::Flying)
            &&& (current.spec_is_in_flight() && input.leave_flight) ==> (next
                != PlayerState::Floating && next != PlayerState::Flying)
            &&& (!current.spec_is_in_flight() && input.enter_flight) ==> (next
                == PlayerState::Floating || next == PlayerState::Flying)
        }),
{
}

/// The flight key enters flight wherever the player is: out of flight, a
/// press of the flight key (or a double press of jump) gives Floating or
/// Flying, on the ground as in the air; in flight, only a double press of
/// crouch leaves it.
pub proof fn lemma_flight_key_enters_flight(
    current: PlayerState,
    controls: MoveControls,
    grounded: bool,
    can_stand: bool,
    falling: bool,
)
    ensures
        ({
            let next = settled_state(current, step_input(controls, grounded, can_stand, falling));
            &&& (!current.spec_is_in_flight() && (controls.flight_pressed
                || controls.jump_double_press)) ==> (next == PlayerState::Floating || next
                == PlayerState::Flying)
            &&& (current.spec_is_in_flight() && !controls.crouch_double_press) ==> (next
                == PlayerState::Floating || next == PlayerState::Flying)
            &&& (current.spec_is_in_flight() && controls.crouch_double_press) ==> (next
                != PlayerState::Floating && next != PlayerState::Flying)
        }),
{
}

/// The movement keys give a direction exactly when some pair of opposite
/// keys does not cancel: W with D (or any single key) moves, W with S alone
/// does not.
pub proof fn lemma_direction_from_keys(keys: MoveKeys)
    ensures
        keys.spec_has_direction() <==> (keys.forward != keys.back || keys.left != keys.right),
        keys.spec_axis_x() == 0 <==> keys.left == keys.right,
        keys.spec_axis_z() == 0 <==> keys.forward == keys.back,
{
}

/// The pending press after a run of updates, each a pair (just pressed,
/// time in milliseconds).
pub open spec fn pending_after_run(start: Option<u64>, events: Seq<(bool, u64)>) -> Option<u64>
    decreases events.len(),
{
    if events.len() == 0 {
        start
    } else {
        let before = pending_after_run(start, events.drop_last());
        pending_after(before, events.last().0, events.last().1)
    }
}

/// The pending press is always the time of a real press: after any run of
/// updates from a fresh tracker, the pending time (if any) is the time of an
/// update in which the key was pressed; updates without a press never move it.
pub proof fn lemma_pending_is_a_real_press(events: Seq<(bool, u64)>)
    ensures
        pending_after_run(None, events) matches Some(t) ==> exists|i: int|
            0 <= i < events.len() && (#[trigger] events[i]).0 && events[i].1 == t,
    decreases events.len(),
{
    if events.len() > 0 {
        let prefix = events.drop_last();
        lemma_pending_is_a_real_press(prefix);
        let before = pending_after_run(None, prefix);
        if let Some(t) = pending_after_run(None, events) {
            if events.last().0 {
                assert(events[events.len() - 1] == events.last());
            } else {
                assert(before == Some(t));
                let i = choose|i: int| 0 <= i < prefix.len() && (#[trigger] prefix[i]).0
                    && prefix[i].1 == t;
                assert(events[i] == prefix[i]);
            }
        }
    }
}

/// A double press is reported only for two real presses at most the window
/// apart: a press completes a double press exactly when a press is pending,
/// no later than now and at most `DOUBLE_PRESS_WINDOW_MS` before it; an
/// update without a press never reports one nor moves the pending press.
pub proof fn lemma_double_press_window(last: Option<u64>, pressed: bool, now_ms: u64)
    ensures
        completes_double_press(last, pressed, now_ms) <==> (pressed && last is Some && last->0
            <= now_ms && now_ms - last->0 <= DOUBLE_PRESS_WINDOW_MS),
        !pressed ==> pending_after(last, pressed, now_ms) == last,
        (pressed && !completes_double_press(last, pressed, now_ms)) ==> pending_after(
            last,
            pressed,
            now_ms,
        ) == Some(now_ms),
{
}

/// How the capsule collider changes when the state changes: shrink (and
/// lower the centre by half the height difference) when crouching starts,
/// grow back (and raise the centre again) when it ends.
#[derive(PartialEq, Eq, Structural, Clone, Copy, Debug)]
pub enum ColliderChange {
    Keep,
    Shrink,
    Grow,
}

pub open spec fn spec_collider_change(was_crouching: bool, is_crouching: bool) -> ColliderChange {
    if is_crouching && !was_crouching {
        ColliderChange::Shrink
    } else if !is_crouching && was_crouching {
        ColliderChange::Grow
    } else {
        ColliderChange::Keep
    }
}

/// One step of the collider bookkeeping: the change to make and whether the
/// collider is crouched afterwards.
pub open spec fn collider_step(was_crouching: bool, state: PlayerState) -> (ColliderChange, bool) {
    (spec_collider_change(was_crouching, state.spec_is_crouching()), state.spec_is_crouching())
}

/// The collider change for a new state, given whether the collider was in
/// its crouched form; also returns whether it is crouched afterwards.
pub fn collider_change(was_crouching: bool, state: PlayerState) -> (r: (ColliderChange, bool))
    ensures
        r == collider_step(was_crouching, state),
        (r.0 == ColliderChange::Shrink) <==> (state.spec_is_crouching() && !was_crouching),
        (r.0 == ColliderChange::Grow) <==> (!state.spec_is_crouching() && was_crouching),
        r.1 == state.spec_is_crouching(),
{
    let is_crouching = state.is_crouching();
    let change = if is_crouching && !was_crouching {
        ColliderChange::Shrink
    } else if !is_crouching && was_crouching {
        ColliderChange::Grow
    } else {
        ColliderChange::Keep
    };
    (change, is_crouching)
}

/// The move of the body's centre caused by a collider change, in units of
/// half the difference between the standing and the crouched height.
pub open spec fn center_shift(change: ColliderChange) -> int {
    match change {
        ColliderChange::Keep => 0,
        ColliderChange::Shrink => -1,
        ColliderChange::Grow => 1,
    }
}

/// Where the centre sits for a collider form: one unit lower when crouched.
pub open spec fn center_level(crouched: bool) -> int {
    if crouched {
        -1
    } else {
        0
    }
}

/// Whether the collider is in its crouched form after `collider_change` was
/// fed each of `states` in turn, starting from `was_crouching`.
pub open spec fn crouched_after(was_crouching: bool, states: Seq<PlayerState>) -> bool
    decreases states.len(),
{
    if states.len() == 0 {
        was_crouching
    } else {
        collider_step(crouched_after(was_crouching, states.drop_last()), states.last()).1
    }
}

/// The total move of the centre over those same calls.
pub open spec fn total_center_shift(was_crouching: bool, states: Seq<PlayerState>) -> int
    decreases states.len(),
{
    if states.len() == 0 {
        0
    } else {
        let before = crouched_after(was_crouching, states.drop_last());
        total_center_shift(was_crouching, states.drop_last()) + center_shift(
            collider_step(before, states.last()).0,
        )
    }
}

/// The collider follows the state: after any sequence of state changes the
/// collider is crouched exactly when the last state is a crouching one, and
/// the centre has moved by exactly the difference between the current and
/// the starting form, so crouching and standing up again leave the body
/// where it was.
pub proof fn lemma_collider_follows_state(was_crouching: bool, states: Seq<PlayerState>)
    ensures
        states.len() > 0 ==> crouched_after(was_crouching, states)
            == states.last().spec_is_crouching(),
        total_center_shift(was_crouching, states) == center_level(
            crouched_after(was_crouching, states),
        ) - center_level(was_crouching),
    decreases states.len(),
{
    if states.len() > 0 {
        lemma_collider_follows_state(was_crouching, states.drop_last());
    }
}

} // verus!
