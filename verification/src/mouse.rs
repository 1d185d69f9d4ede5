//! Mouse buttons and the mouse operations.

use crate::action::{buttons, relative_move, Action};
use vstd::prelude::*;
use vstd::std_specs::convert::FromSpecImpl;

verus! {

/// The buttons held down while a mouse record takes effect.
#[derive(Clone, Copy, Debug, PartialEq, Eq, Structural)]
pub enum MouseButton {
    Left,
    Right,
    Middle,
    LeftRight,
    LeftMiddle,
    RightMiddle,
    All,
    Release,
}

impl MouseButton {
    /// The button state on the wire: bit 0 is left, bit 1 right, bit 2 middle.
    pub open spec fn code(self) -> u8 {
        match self {
            MouseButton::Left => 1,
            MouseButton::Right => 2,
            MouseButton::Middle => 4,
            MouseButton::LeftRight => 3,
            MouseButton::LeftMiddle => 5,
            MouseButton::RightMiddle => 6,
            MouseButton::All => 7,
            MouseButton::Release => 0,
        }
    }
}

impl From<MouseButton> for u8 {
    fn from(button: MouseButton) -> (code: u8) {
        match button {
            MouseButton::Left => 1,
            MouseButton::Right => 2,
            MouseButton::Middle => 4,
            MouseButton::LeftRight => 3,
            MouseButton::LeftMiddle => 5,
            MouseButton::RightMiddle => 6,
            MouseButton::All => 7,
            MouseButton::Release => 0,
        }
    }
}

impl FromSpecImpl<MouseButton> for u8 {
    open spec fn obeys_from_spec() -> bool {
        true
    }

    open spec fn from_spec(button: MouseButton) -> u8 {
        button.code()
    }
}

/// The smallest delta that one record carries on an axis; the device rejects -128.
pub const MIN_STEP_SIZE: i8 = -127;

/// The largest delta that one record carries on an axis.
pub const MAX_STEP_SIZE: i8 = 127;

/// A position on the screen, in pixels.
#[derive(Clone, Copy, Debug, PartialEq, Eq, Structural)]
pub struct Point {
    pub x: i32,
    pub y: i32,
}

/// The distance of `v` from zero.
pub open spec fn magnitude(v: int) -> int {
    if v < 0 {
        -v
    } else {
        v
    }
}

/// The quotient of `a` by a positive `b`, rounded toward zero.
pub open spec fn quotient(a: int, b: int) -> int
    recommends
        b > 0,
{
    if a < 0 {
        -((-a) / b)
    } else {
        a / b
    }
}

/// The value that the low eight bits of `v` stand for as a signed number.
pub open spec fn wrap_i8(v: int) -> int {
    (v + 128) % 256 - 128
}

/// How many steps of full size fit into a delta.
pub open spec fn whole_steps(delta: int) -> int {
    magnitude(delta) / 127
}

/// The step of full size that points the way of a delta.
pub open spec fn full_step(delta: int) -> int {
    if delta < 0 {
        MIN_STEP_SIZE as int
    } else {
        MAX_STEP_SIZE as int
    }
}

/// How many stepped moves a movement by `(delta_x, delta_y)` takes: as many as the
/// axis that needs more of them.
pub open spec fn step_count(delta_x: int, delta_y: int) -> int {
    if whole_steps(delta_x) >= whole_steps(delta_y) {
        whole_steps(delta_x)
    } else {
        whole_steps(delta_y)
    }
}

/// The delta that each stepped move carries on the axis of `delta`, where `other` is
/// the delta of the other axis. An axis that needs no fewer steps than the other moves
/// by full steps; otherwise its delta is spread over the steps of the other.
pub open spec fn axis_step(delta: int, other: int) -> int {
    if whole_steps(delta) >= whole_steps(other) {
        full_step(delta)
    } else {
        quotient(delta, whole_steps(other))
    }
}

/// What the stepped moves leave of `delta`, before it is cut to eight bits.
pub open spec fn axis_rest(delta: int, other: int) -> int {
    delta - axis_step(delta, other) * step_count(delta, other)
}

/// The delta that the final move carries on the axis of `delta`.
pub open spec fn axis_residual(delta: int, other: int) -> int {
    wrap_i8(axis_rest(delta, other))
}

/// A movement broken into equal stepped moves and one final move.
#[derive(Clone, Copy, Debug, PartialEq, Eq, Structural)]
pub struct MovePlan {
    /// The number of stepped moves.
    pub steps: i32,
    /// The horizontal delta of each stepped move.
    pub x_step: i8,
    /// The vertical delta of each stepped move.
    pub y_step: i8,
    /// The horizontal delta of the final move.
    pub final_step_x: i8,
    /// The vertical delta of the final move.
    pub final_step_y: i8,
}

impl MovePlan {
    /// The plan for a movement by `(delta_x, delta_y)`.
    pub open spec fn is_plan_for(self, delta_x: int, delta_y: int) -> bool {
        &&& self.steps == step_count(delta_x, delta_y)
        &&& self.x_step == axis_step(delta_x, delta_y)
        &&& self.y_step == axis_step(delta_y, delta_x)
        &&& self.final_step_x == axis_residual(delta_x, delta_y)
        &&& self.final_step_y == axis_residual(delta_y, delta_x)
    }
}

proof fn lemma_spread_step_is_small(delta: int, steps: int)
    by (nonlinear_arith)
    requires
        steps > 0,
        magnitude(delta) < 127 * steps,
    ensures
        -126 <= quotient(delta, steps) <= 126,
        magnitude(quotient(delta, steps) * steps) <= magnitude(delta),
        delta >= 0 ==> 0 <= quotient(delta, steps) * steps <= delta,
        delta < 0 ==> delta <= quotient(delta, steps) * steps <= 0,
{
}

proof fn lemma_product_fits(step: int, steps: int)
    by (nonlinear_arith)
    requires
        -127 <= step <= 127,
        0 <= steps <= 16909320,
    ensures
        -2147483640 <= step * steps <= 2147483640,
{
}

/// The stepped moves never overshoot: what they cover lies between zero and the delta.
proof fn lemma_stepped_part_is_within(delta: int, other: int)
    ensures
        -127 <= axis_step(delta, other) <= 127,
        delta >= 0 ==> 0 <= axis_step(delta, other) * step_count(delta, other) <= delta,
        delta < 0 ==> delta <= axis_step(delta, other) * step_count(delta, other) <= 0,
        whole_steps(delta) >= whole_steps(other) ==> magnitude(axis_rest(delta, other)) < 127,
        magnitude(axis_rest(delta, other)) <= magnitude(delta),
{
    let steps = step_count(delta, other);
    let step = axis_step(delta, other);
    if whole_steps(delta) >= whole_steps(other) {
        if delta < 0 {
            assert(step * steps == -127 * steps);
        } else {
            assert(step * steps == 127 * steps);
        }
    } else {
        lemma_spread_step_is_small(delta, steps);
    }
}

/// Cuts a 32-bit value to its low eight bits.
fn low_eight_bits(v: i32) -> (r: i8)
    ensures
        r == wrap_i8(v as int),
{
    let r = #[verifier::truncate] (v as i8);
    assert(r == (((v + 128) % 256) - 128)) by (bit_vector)
        requires
            r == v as i8,
    ;
    r
}

/// The number of whole steps of full size in a delta, and that step.
pub fn calculate_steps_and_size(delta: i32) -> (r: (i32, i8))
    ensures
        r.0 == whole_steps(delta as int),
        r.1 == full_step(delta as int),
        0 <= r.0 <= 16909320,
{
    if delta < 0 {
        return (delta / -127, MIN_STEP_SIZE);
    }
    (delta / 127, MAX_STEP_SIZE)
}

/// Plans a movement by `(delta_x, delta_y)`.
pub fn plan_move(delta_x: i32, delta_y: i32) -> (plan: MovePlan)
    ensures
        plan.is_plan_for(delta_x as int, delta_y as int),
        0 <= plan.steps <= 16909320,
        MIN_STEP_SIZE <= plan.x_step <= MAX_STEP_SIZE,
        MIN_STEP_SIZE <= plan.y_step <= MAX_STEP_SIZE,
{
    let (steps_x, full_x) = calculate_steps_and_size(delta_x);
    let (steps_y, full_y) = calculate_steps_and_size(delta_y);
    let mut x_step: i8 = full_x;
    let mut y_step: i8 = full_y;
    let mut steps: i32 = 0;
    let final_step_x: i8;
    let final_step_y: i8;
    assert(step_count(delta_y as int, delta_x as int) == step_count(delta_x as int, delta_y as int));
    if steps_x > 0 || steps_y > 0 {
        if steps_x > steps_y {
            steps = steps_x;
            proof {
                lemma_spread_step_is_small(delta_y as int, steps as int);
            }
            y_step = low_eight_bits(delta_y / steps);
        } else if steps_x < steps_y {
            steps = steps_y;
            proof {
                lemma_spread_step_is_small(delta_x as int, steps as int);
            }
            x_step = low_eight_bits(delta_x / steps);
        } else {
            steps = steps_x;
        }
        proof {
            lemma_stepped_part_is_within(delta_x as int, delta_y as int);
            lemma_stepped_part_is_within(delta_y as int, delta_x as int);
            lemma_product_fits(x_step as int, steps as int);
            lemma_product_fits(y_step as int, steps as int);
        }
        final_step_x = low_eight_bits(delta_x - (x_step as i32) * steps);
        final_step_y = low_eight_bits(delta_y - (y_step as i32) * steps);
    } else {
        assert(axis_step(delta_x as int, delta_y as int) * 0 == 0);
        assert(axis_step(delta_y as int, delta_x as int) * 0 == 0);
        final_step_x = low_eight_bits(delta_x);
        final_step_y = low_eight_bits(delta_y);
    }
    MovePlan { steps, x_step, y_step, final_step_x, final_step_y }
}

/// `steps` stepped moves by `(x, y)`, each followed by a pause of `millis` milliseconds;
/// none at all where `steps` is not positive.
pub open spec fn stepped_moves(button: MouseButton, x: i8, y: i8, millis: u64, steps: int) -> Seq<
    Action,
> {
    Seq::new(
        if steps > 0 {
            (2 * steps) as nat
        } else {
            0
        },
        |i: int|
            if i % 2 == 0 {
                relative_move(button, x, y)
            } else {
                Action::Sleep { millis }
            },
    )
}

impl MovePlan {
    /// What carrying out the plan takes: the stepped moves with their pauses, then the
    /// final move.
    pub open spec fn actions(self, button: MouseButton, millis: u64) -> Seq<Action> {
        stepped_moves(button, self.x_step, self.y_step, millis, self.steps as int).push(
            relative_move(button, self.final_step_x, self.final_step_y),
        )
    }

    /// Writes the plan out as actions.
    pub fn script(&self, button: MouseButton, millis: u64) -> (script: Vec<Action>)
        ensures
            script@ == self.actions(button, millis),
    {
        let mut script: Vec<Action> = Vec::new();
        let mut done: i32 = 0;
        while done < self.steps
            invariant
                0 <= done,
                done <= self.steps || (self.steps < 0 && done == 0),
                script@ == stepped_moves(button, self.x_step, self.y_step, millis, done as int),
            decreases self.steps - done,
        {
            script.push(Action::Mouse { button, x: self.x_step, y: self.y_step, wheel: 0 });
            script.push(Action::Sleep { millis });
            done = done + 1;
        }
        assert(script@ =~= stepped_moves(
            button,
            self.x_step,
            self.y_step,
            millis,
            self.steps as int,
        ));
        script.push(Action::Mouse { button, x: self.final_step_x, y: self.final_step_y, wheel: 0 });
        script
    }
}

/// The actions of a movement by `(delta_x, delta_y)`.
pub open spec fn move_actions(button: MouseButton, delta_x: int, delta_y: int, millis: u64) -> Seq<
    Action,
> {
    stepped_moves(
        button,
        axis_step(delta_x, delta_y) as i8,
        axis_step(delta_y, delta_x) as i8,
        millis,
        step_count(delta_x, delta_y),
    ).push(
        relative_move(
            button,
            axis_residual(delta_x, delta_y) as i8,
            axis_residual(delta_y, delta_x) as i8,
        ),
    )
}

/// The mouse operations. Each hands out what the driver is to send and when.
#[derive(Clone, Copy, Debug)]
pub struct Mouse {}

impl Mouse {
    /// Creates a new [`Mouse`].
    pub fn new() -> Self {
        Mouse {  }
    }

    /// Presses `button`, holds it for `millis` milliseconds, and releases it.
    pub fn click(&self, button: MouseButton, millis: u64) -> (script: Vec<Action>)
        ensures
            script@ == seq![
                buttons(button),
                Action::Sleep { millis },
                buttons(MouseButton::Release),
            ],
    {
        vec![
            Action::Mouse { button, x: 0, y: 0, wheel: 0 },
            Action::Sleep { millis },
            Action::Mouse { button: MouseButton::Release, x: 0, y: 0, wheel: 0 },
        ]
    }

    /// Moves the pointer from `current` to `(x, y)` in steps of at most 127 on each
    /// axis, with a pause of `millis` milliseconds after each step, and one final move.
    pub fn move_absolute(
        &self,
        button: MouseButton,
        current: Point,
        x: u16,
        y: u16,
        millis: u64,
    ) -> (script: Vec<Action>)
        requires
            x - current.x <= i32::MAX,
            y - current.y <= i32::MAX,
        ensures
            script@ == move_actions(button, x - current.x, y - current.y, millis),
    {
        let delta_x: i32 = x as i32 - current.x;
        let delta_y: i32 = y as i32 - current.y;
        let plan = plan_move(delta_x, delta_y);
        plan.script(button, millis)
    }

    /// Moves the pointer by `(x, y)`.
    pub fn move_relative(&self, button: MouseButton, x: i8, y: i8) -> (action: Action)
        ensures
            action == relative_move(button, x, y),
    {
        Action::Mouse { button, x, y, wheel: 0 }
    }

    /// Presses `button` and holds it.
    pub fn press(&self, button: MouseButton) -> (action: Action)
        ensures
            action == buttons(button),
    {
        Action::Mouse { button, x: 0, y: 0, wheel: 0 }
    }

    /// Releases every button.
    pub fn release(&self) -> (action: Action)
        ensures
            action == buttons(MouseButton::Release),
    {
        Action::Mouse { button: MouseButton::Release, x: 0, y: 0, wheel: 0 }
    }

    /// Turns the wheel by `wheel`.
    pub fn wheel(&self, button: MouseButton, wheel: i8) -> (action: Action)
        ensures
            action == (Action::Mouse { button, x: 0, y: 0, wheel }),
    {
        Action::Mouse { button, x: 0, y: 0, wheel }
    }
}

/// How far the mouse commands of a script move the pointer in all, on each axis.
pub open spec fn travel(script: Seq<Action>) -> (int, int)
    decreases script.len(),
{
    if script.len() == 0 {
        (0, 0)
    } else {
        let before = travel(script.drop_last());
        match script.last() {
            Action::Mouse { x, y, .. } => (before.0 + x, before.1 + y),
            _ => before,
        }
    }
}

/// How many mouse commands a script holds.
pub open spec fn moves(script: Seq<Action>) -> nat
    decreases script.len(),
{
    if script.len() == 0 {
        0
    } else {
        moves(script.drop_last()) + (if script.last() is Mouse {
            1nat
        } else {
            0nat
        })
    }
}

proof fn lemma_stepped_moves_travel(button: MouseButton, x: i8, y: i8, millis: u64, steps: int)
    requires
        steps >= 0,
    ensures
        travel(stepped_moves(button, x, y, millis, steps)) == (steps * x, steps * y),
        moves(stepped_moves(button, x, y, millis, steps)) == steps,
    decreases steps,
{
    let script = stepped_moves(button, x, y, millis, steps);
    if steps > 0 {
        let shorter = stepped_moves(button, x, y, millis, steps - 1);
        lemma_stepped_moves_travel(button, x, y, millis, steps - 1);
        let head = script.drop_last();
        assert(head.drop_last() =~= shorter);
        assert(script.last() == Action::Sleep { millis });
        assert(head.last() == relative_move(button, x, y));
        assert(travel(script) == travel(head));
        assert(travel(head) == (travel(shorter).0 + x, travel(shorter).1 + y));
        assert(moves(script) == moves(head));
        assert(moves(head) == moves(shorter) + 1);
        assert(steps * x == (steps - 1) * x + x) by (nonlinear_arith);
        assert(steps * y == (steps - 1) * y + y) by (nonlinear_arith);
    }
}

/// A movement takes one mouse command for each step and one more. On an axis whose
/// rest after the steps fits in a signed byte, the commands together move the pointer
/// by exactly the delta. The rest always fits on the axis that needs no fewer steps
/// than the other.
pub proof fn move_lands_on_target(button: MouseButton, delta_x: int, delta_y: int, millis: u64)
    ensures
        move_actions(button, delta_x, delta_y, millis).len() == 2 * step_count(delta_x, delta_y)
            + 1,
        moves(move_actions(button, delta_x, delta_y, millis)) == step_count(delta_x, delta_y) + 1,
        -128 <= axis_rest(delta_x, delta_y) <= 127 ==> travel(
            move_actions(button, delta_x, delta_y, millis),
        ).0 == delta_x,
        -128 <= axis_rest(delta_y, delta_x) <= 127 ==> travel(
            move_actions(button, delta_x, delta_y, millis),
        ).1 == delta_y,
        whole_steps(delta_x) >= whole_steps(delta_y) ==> -128 <= axis_rest(delta_x, delta_y)
            <= 127,
        whole_steps(delta_y) >= whole_steps(delta_x) ==> -128 <= axis_rest(delta_y, delta_x)
            <= 127,
{
    let steps = step_count(delta_x, delta_y);
    let x = axis_step(delta_x, delta_y) as i8;
    let y = axis_step(delta_y, delta_x) as i8;
    let script = move_actions(button, delta_x, delta_y, millis);
    lemma_stepped_part_is_within(delta_x, delta_y);
    lemma_stepped_part_is_within(delta_y, delta_x);
    lemma_stepped_moves_travel(button, x, y, millis, steps);
    assert(step_count(delta_y, delta_x) == steps);
    assert(script.drop_last() =~= stepped_moves(button, x, y, millis, steps));
    assert(steps * x == x * steps) by (nonlinear_arith);
    assert(steps * y == y * steps) by (nonlinear_arith);
}

/// No stepped move carries a delta outside the range from [`MIN_STEP_SIZE`] to
/// [`MAX_STEP_SIZE`], so none carries -128; the number of steps is never negative.
pub proof fn steps_stay_in_range(delta_x: int, delta_y: int)
    ensures
        MIN_STEP_SIZE <= axis_step(delta_x, delta_y) <= MAX_STEP_SIZE,
        MIN_STEP_SIZE <= axis_step(delta_y, delta_x) <= MAX_STEP_SIZE,
        step_count(delta_x, delta_y) >= 0,
{
    lemma_stepped_part_is_within(delta_x, delta_y);
    lemma_stepped_part_is_within(delta_y, delta_x);
}

/// A movement to the place where the pointer is takes one command, which moves it by
/// nothing.
pub proof fn move_to_current_position(button: MouseButton, millis: u64)
    ensures
        move_actions(button, 0, 0, millis) == seq![relative_move(button, 0, 0)],
{
    assert(axis_step(0, 0) * 0 == 0);
    assert(move_actions(button, 0, 0, millis) =~= seq![relative_move(button, 0, 0)]);
}

} // verus!
