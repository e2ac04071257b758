//! The movement resolver: from the keys that are held to a displacement in
//! the body's own horizontal frame.

use vstd::prelude::*;
use crate::binding::Variant;
use crate::cursor::{input_captured, Window, WindowError};
use crate::settings::MovementSettings;

verus! {

/// The movement keys that are down.
#[derive(Clone, Copy, Debug, PartialEq, Eq, Structural)]
pub struct HeldKeys {
    /// Along the body's forward axis.
    pub forward: bool,
    /// Against the body's forward axis.
    pub back: bool,
    /// Against the body's right axis.
    pub left: bool,
    /// Along the body's right axis.
    pub right: bool,
    /// Along world-up.
    pub up: bool,
    /// Against world-up.
    pub down: bool,
}

/// One frame's displacement of the body, in the frame that the body's yaw
/// alone defines: its right axis, world-up and its forward axis, all three
/// of unit length, the first and the last horizontal. The camera's pitch has
/// no part in it.
///
/// Along each axis the body moves by the axis' sign times `step`, which is
/// counted in billionths of a world unit.
#[derive(Clone, Copy, Debug, PartialEq, Eq, Structural)]
pub struct Movement {
    /// -1, 0 or 1: the sign along the body's right axis.
    pub right: i8,
    /// -1, 0 or 1: the sign along world-up.
    pub up: i8,
    /// -1, 0 or 1: the sign along the body's forward axis.
    pub forward: i8,
    /// The length moved along each axis whose sign is not 0.
    pub step: u64,
}

/// What a pair of opposite keys adds along their axis: each key that is down
/// adds one unit in its direction, so that two opposite keys cancel.
pub open spec fn axis(positive: bool, negative: bool) -> int {
    (if positive { 1int } else { 0int }) - (if negative { 1int } else { 0int })
}

/// The squared length of the sum of the keys' unit vectors.
pub open spec fn weight(right: int, up: int, forward: int) -> int {
    right * right + up * up + forward * forward
}

/// The distance covered in `dt_micros` microseconds at `speed` thousandths of
/// a world unit per second, in billionths of a world unit.
pub open spec fn travel(speed: int, dt_micros: int) -> int {
    speed * dt_micros
}

/// `step` is `distance` divided by the square root of `weight`, rounded
/// down.
pub open spec fn is_axis_step(weight: int, distance: int, step: int) -> bool {
    &&& 0 <= step
    &&& weight * (step * step) <= distance * distance
    &&& distance * distance < weight * ((step + 1) * (step + 1))
}

/// The length moved along each axis when a vector of squared length `weight`
/// is brought to unit length and then to length `distance`: `distance`
/// divided by the square root of `weight`, rounded down. A vector of length
/// zero stays zero.
pub open spec fn axis_step(weight: int, distance: int) -> int {
    if weight <= 0 {
        0
    } else {
        choose|step: int| is_axis_step(weight, distance, step)
    }
}

/// The signs along right, up and forward that the held keys give.
pub open spec fn key_axes(keys: HeldKeys, variant: Variant) -> (int, int, int) {
    (
        axis(keys.right, keys.left),
        if variant.spec_flies() {
            axis(keys.up, keys.down)
        } else {
            0
        },
        axis(keys.forward, keys.back),
    )
}

/// The movement of one frame, as signs along right, up and forward and the
/// step along each: zero while input is not captured.
pub open spec fn resolve_movement(
    window: Option<Window>,
    keys: HeldKeys,
    speed: int,
    dt_micros: int,
    variant: Variant,
) -> (int, int, int, int) {
    if input_captured(window) {
        let (right, up, forward) = key_axes(keys, variant);
        (right, up, forward, axis_step(weight(right, up, forward), travel(speed, dt_micros)))
    } else {
        (0, 0, 0, 0)
    }
}

impl Movement {
    /// Signs and step as integers.
    pub open spec fn view(self) -> (int, int, int, int) {
        (self.right as int, self.up as int, self.forward as int, self.step as int)
    }

    /// The displacement along right, up and forward, in billionths of a
    /// world unit.
    pub open spec fn displacement(self) -> (int, int, int) {
        (self.right * self.step, self.up * self.step, self.forward * self.step)
    }

    /// No movement.
    pub fn zero() -> (r: Movement)
        ensures
            r@ == (0int, 0int, 0int, 0int),
    {
        Movement { right: 0, up: 0, forward: 0, step: 0 }
    }

    /// Whether nothing moves.
    pub fn is_zero(&self) -> (r: bool)
        ensures
            r == (self.displacement() == (0int, 0int, 0int)),
    {
        proof {
            lemma_product_zero(self.right as int, self.step as int);
            lemma_product_zero(self.up as int, self.step as int);
            lemma_product_zero(self.forward as int, self.step as int);
        }
        self.step == 0 || (self.right == 0 && self.up == 0 && self.forward == 0)
    }
}

proof fn lemma_product_zero(a: int, b: int)
    ensures
        a * b == 0 <==> a == 0 || b == 0,
{
    assert(a * b == 0 <==> a == 0 || b == 0) by (nonlinear_arith);
}

proof fn lemma_sign_square(sign: int)
    requires
        -1 <= sign <= 1,
    ensures
        sign * sign == (if sign == 0 { 0int } else { 1int }),
{
    assert(sign * sign == (if sign == 0 { 0int } else { 1int })) by (nonlinear_arith)
        requires
            -1 <= sign <= 1,
    ;
}

proof fn lemma_square_monotone(a: int, b: int)
    requires
        0 <= a <= b,
    ensures
        a * a <= b * b,
{
    assert(a * a <= b * b) by (nonlinear_arith)
        requires
            0 <= a <= b,
    ;
}

/// At most one step belongs to a weight and a distance.
pub proof fn lemma_axis_step_unique(weight: int, distance: int, a: int, b: int)
    requires
        is_axis_step(weight, distance, a),
        is_axis_step(weight, distance, b),
    ensures
        a == b,
{
    if a < b {
        lemma_scaled_squares_ordered(weight, distance, a, b);
    } else if b < a {
        lemma_scaled_squares_ordered(weight, distance, b, a);
    }
}

proof fn lemma_scaled_squares_ordered(weight: int, distance: int, a: int, b: int)
    requires
        0 <= a < b,
        distance * distance < weight * ((a + 1) * (a + 1)),
    ensures
        distance * distance < weight * (b * b),
{
    lemma_square_monotone(a + 1, b);
    assert(distance * distance < weight * (b * b)) by (nonlinear_arith)
        requires
            (a + 1) * (a + 1) <= b * b,
            distance * distance < weight * ((a + 1) * (a + 1)),
    ;
}

/// A step that belongs to a positive weight and a distance is the one that
/// `axis_step` names.
pub proof fn lemma_axis_step_is(weight: int, distance: int, step: int)
    requires
        weight > 0,
        is_axis_step(weight, distance, step),
    ensures
        axis_step(weight, distance) == step,
{
    lemma_axis_step_unique(weight, distance, axis_step(weight, distance), step);
}

proof fn lemma_root_exists(value: int) -> (root: int)
    requires
        0 <= value,
    ensures
        0 <= root,
        root * root <= value < (root + 1) * (root + 1),
    decreases value,
{
    if value == 0 {
        0
    } else {
        let below: int = lemma_root_exists(value - 1);
        if value < (below + 1) * (below + 1) {
            below
        } else {
            assert((below + 1) * (below + 1) < (below + 2) * (below + 2)) by (nonlinear_arith)
                requires
                    0 <= below,
            ;
            below + 1
        }
    }
}

proof fn lemma_step_from_root(weight: int, distance: int, root: int)
    requires
        weight > 0,
        0 <= root,
        root * root <= (distance * distance) / weight < (root + 1) * (root + 1),
    ensures
        is_axis_step(weight, distance, root),
{
    let square: int = distance * distance;
    let quotient: int = square / weight;
    assert(square >= 0) by (nonlinear_arith)
        requires
            square == distance * distance,
    ;
    assert(weight * quotient <= square && square < weight * quotient + weight)
        by (nonlinear_arith)
        requires
            weight > 0,
            square >= 0,
            quotient == square / weight,
    ;
    assert(weight * (root * root) <= weight * quotient) by (nonlinear_arith)
        requires
            weight > 0,
            root * root <= quotient,
    ;
    assert(weight * quotient + weight <= weight * ((root + 1) * (root + 1)))
        by (nonlinear_arith)
        requires
            weight > 0,
            quotient + 1 <= (root + 1) * (root + 1),
    ;
}

/// Every positive weight and every distance have their step: it is not
/// negative, and the vector that it gives is at most as long as the distance
/// and falls short of it by less than one unit along each axis.
pub proof fn lemma_axis_step_exists(weight: int, distance: int)
    requires
        weight > 0,
    ensures
        is_axis_step(weight, distance, axis_step(weight, distance)),
{
    assert(distance * distance >= 0) by (nonlinear_arith);
    assert((distance * distance) / weight >= 0) by (nonlinear_arith)
        requires
            distance * distance >= 0,
            weight > 0,
    ;
    let root: int = lemma_root_exists((distance * distance) / weight);
    lemma_step_from_root(weight, distance, root);
}

/// Along a single axis the step is the whole distance.
pub proof fn lemma_single_axis_step(distance: int)
    requires
        0 <= distance,
    ensures
        axis_step(1, distance) == distance,
{
    assert(distance * distance < (distance + 1) * (distance + 1)) by (nonlinear_arith)
        requires
            0 <= distance,
    ;
    lemma_axis_step_is(1, distance, distance);
}

/// The square root of `value`, rounded down.
pub fn integer_sqrt(value: u128) -> (root: u64)
    ensures
        root * root <= value,
        value < (root + 1) * (root + 1),
{
    let mut low: u128 = 0;
    let mut high: u128 = 0x1_0000_0000_0000_0000;
    assert(0x1_0000_0000_0000_0000int * 0x1_0000_0000_0000_0000int > u128::MAX);
    while high - low > 1
        invariant
            low < high <= 0x1_0000_0000_0000_0000,
            low * low <= value,
            value < high * high,
        decreases high - low,
    {
        let middle: u128 = low + (high - low) / 2;
        assert(middle * middle <= 0xFFFF_FFFF_FFFF_FFFF * 0xFFFF_FFFF_FFFF_FFFF)
            by (nonlinear_arith)
            requires
                0 <= middle <= 0xFFFF_FFFF_FFFF_FFFF,
        ;
        assert(0xFFFF_FFFF_FFFF_FFFFint * 0xFFFF_FFFF_FFFF_FFFFint <= u128::MAX);
        let square: u128 = middle * middle;
        if square <= value {
            low = middle;
        } else {
            high = middle;
        }
    }
    low as u64
}

/// `distance` divided by the square root of `weight`, rounded down; zero for
/// the weight zero.
pub fn axis_step_of(weight: u8, distance: u64) -> (step: u64)
    ensures
        step == axis_step(weight as int, distance as int),
{
    if weight == 0 {
        return 0;
    }
    let wide: u128 = distance as u128;
    assert(wide * wide <= 0xFFFF_FFFF_FFFF_FFFF * 0xFFFF_FFFF_FFFF_FFFF) by (nonlinear_arith)
        requires
            0 <= wide <= 0xFFFF_FFFF_FFFF_FFFF,
    ;
    assert(0xFFFF_FFFF_FFFF_FFFFint * 0xFFFF_FFFF_FFFF_FFFFint <= u128::MAX);
    let square: u128 = wide * wide;
    let quotient: u128 = square / (weight as u128);
    let root: u64 = integer_sqrt(quotient);
    proof {
        lemma_step_from_root(weight as int, distance as int, root as int);
        lemma_axis_step_is(weight as int, distance as int, root as int);
    }
    root
}

/// The movement resolver. While the window holds the pointer, every
/// movement key that is down adds one unit along its axis (the vertical keys
/// only for an actor that flies), the sum is brought to unit length, or left
/// at zero, and then to the length that the speed covers in the frame's
/// time. While the cursor is free, nothing moves. Without a window nothing
/// moves either, and the error says so.
pub fn player_move(
    window: Option<Window>,
    keys: &HeldKeys,
    settings: &MovementSettings,
    dt_micros: u32,
    variant: Variant,
) -> (r: Result<Movement, WindowError>)
    ensures
        window is None ==> r == Err::<Movement, WindowError>(WindowError::NoPrimaryWindow),
        window is Some ==> r is Ok && r.unwrap()@ == resolve_movement(
            window,
            *keys,
            settings.spec_speed() as int,
            dt_micros as int,
            variant,
        ),
{
    let w = match window {
        Some(w) => w,
        None => {
            return Err(WindowError::NoPrimaryWindow);
        },
    };
    if !w.grab.is_locked() {
        return Ok(Movement::zero());
    }
    let mut right: i8 = 0;
    let mut up: i8 = 0;
    let mut forward: i8 = 0;
    if keys.left {
        right -= 1;
    }
    if keys.right {
        right += 1;
    }
    if keys.back {
        forward -= 1;
    }
    if keys.forward {
        forward += 1;
    }
    if variant.flies() {
        if keys.down {
            up -= 1;
        }
        if keys.up {
            up += 1;
        }
    }
    let mut squared: u8 = 0;
    if right != 0 {
        squared += 1;
    }
    if up != 0 {
        squared += 1;
    }
    if forward != 0 {
        squared += 1;
    }
    proof {
        lemma_sign_square(right as int);
        lemma_sign_square(up as int);
        lemma_sign_square(forward as int);
    }
    let speed: u64 = settings.speed() as u64;
    assert(speed * dt_micros <= 0x7FFF_FFFF * 0xFFFF_FFFF) by (nonlinear_arith)
        requires
            0 <= speed <= 0x7FFF_FFFF,
            0 <= dt_micros <= 0xFFFF_FFFF,
    ;
    let distance: u64 = speed * (dt_micros as u64);
    let step: u64 = axis_step_of(squared, distance);
    Ok(Movement { right, up, forward, step })
}

/// Two opposite keys that are both down add nothing along their axis; when
/// no other key is down, nothing moves.
pub proof fn lemma_opposite_keys_cancel(
    window: Option<Window>,
    keys: HeldKeys,
    speed: int,
    dt_micros: int,
    variant: Variant,
)
    ensures
        keys.forward && keys.back ==> resolve_movement(window, keys, speed, dt_micros, variant).2
            == 0,
        keys.left && keys.right ==> resolve_movement(window, keys, speed, dt_micros, variant).0
            == 0,
        keys.up && keys.down ==> resolve_movement(window, keys, speed, dt_micros, variant).1 == 0,
        (keys.forward == keys.back) && (keys.left == keys.right) && (keys.up == keys.down)
            ==> resolve_movement(window, keys, speed, dt_micros, variant) == (
            0int,
            0int,
            0int,
            0int,
        ),
{
}

} // verus!
