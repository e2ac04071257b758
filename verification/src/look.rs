//! The orientation integrator: yaw and pitch from mouse motion.

use vstd::prelude::*;
use crate::cursor::{input_captured, Window};
use crate::settings::MovementSettings;

verus! {

/// The largest pitch, up or down, in billionths of a degree: one degree
/// short of the poles, where the view would flip over.
pub const PITCH_LIMIT: i64 = 89_000_000_000;

/// One mouse-motion event: how far the pointer moved, in thousandths of a
/// device count.
#[derive(Clone, Copy, Debug, PartialEq, Eq, Structural)]
pub struct MouseMotion {
    /// To the right.
    pub dx: i32,
    /// Downwards.
    pub dy: i32,
}

/// The body node's rotation: the yaw, about world-up, and nothing else.
#[derive(Clone, Copy, Debug, PartialEq, Eq, Structural)]
pub struct PlayerBody {
    /// Billionths of a degree, as many turns as the mouse has made.
    pub yaw: i128,
}

/// The camera node's rotation: the pitch, about the camera's own right axis,
/// and nothing else.
#[derive(Clone, Copy, Debug, PartialEq, Eq, Structural)]
pub struct PlayerCamera {
    /// Billionths of a degree.
    pub pitch: i64,
}

/// Why a look step was skipped. The state is as it was before the step; the
/// next frame is not affected.
#[derive(Clone, Copy, Debug, PartialEq, Eq, Structural)]
pub enum LookError {
    /// There is no primary window.
    NoPrimaryWindow,
    /// After one of the events the yaw would be more than the machine can
    /// count.
    YawOverflow,
}

/// The angle by which mouse motion turns the view, in billionths of a
/// degree: the sensitivity, in millionths of a degree for each device count
/// and each pixel of scale, times the motion, in thousandths of a count,
/// times the scale.
pub open spec fn turn(sensitivity: int, motion: int, scale: int) -> int {
    sensitivity * motion * scale
}

/// `angle`, or the pitch limit on the side on which `angle` is beyond it.
pub open spec fn clamp_pitch(angle: int) -> int {
    if angle < -PITCH_LIMIT {
        -PITCH_LIMIT as int
    } else if angle > PITCH_LIMIT {
        PITCH_LIMIT as int
    } else {
        angle
    }
}

/// Yaw and pitch after one event, from yaw and pitch before it. The yaw is
/// neither limited nor reduced by whole turns.
pub open spec fn look_once(
    orientation: (int, int),
    sensitivity: int,
    scale: int,
    event: MouseMotion,
) -> (int, int) {
    (
        orientation.0 - turn(sensitivity, event.dx as int, scale),
        clamp_pitch(orientation.1 - turn(sensitivity, event.dy as int, scale)),
    )
}

/// Yaw and pitch after the events, taken one by one in the order in which
/// they came.
pub open spec fn look_all(
    orientation: (int, int),
    sensitivity: int,
    scale: int,
    events: Seq<MouseMotion>,
) -> (int, int)
    decreases events.len(),
{
    if events.len() == 0 {
        orientation
    } else {
        look_once(
            look_all(orientation, sensitivity, scale, events.drop_last()),
            sensitivity,
            scale,
            events.last(),
        )
    }
}

/// The sum of the events' turns about world-up.
pub open spec fn total_turn(sensitivity: int, scale: int, events: Seq<MouseMotion>) -> int
    decreases events.len(),
{
    if events.len() == 0 {
        0
    } else {
        total_turn(sensitivity, scale, events.drop_last()) + turn(
            sensitivity,
            events.last().dx as int,
            scale,
        )
    }
}

/// Whether the machine can count the yaw after each of the events.
pub open spec fn yaw_countable(
    orientation: (int, int),
    sensitivity: int,
    scale: int,
    events: Seq<MouseMotion>,
) -> bool {
    forall|seen: int|
        0 <= seen <= events.len() ==> i128::MIN <= look_all(
            orientation,
            sensitivity,
            scale,
            #[trigger] events.take(seen),
        ).0 <= i128::MAX
}

/// Whether the look step of a frame counts its events: the window holds the
/// pointer, and the machine can count the yaw.
pub open spec fn look_applies(
    window: Option<Window>,
    orientation: (int, int),
    sensitivity: int,
    events: Seq<MouseMotion>,
) -> bool {
    input_captured(window) && yaw_countable(
        orientation,
        sensitivity,
        window.unwrap().spec_scale() as int,
        events,
    )
}

/// Yaw and pitch after the look step of a frame.
pub open spec fn look_step(
    window: Option<Window>,
    orientation: (int, int),
    sensitivity: int,
    events: Seq<MouseMotion>,
) -> (int, int) {
    if look_applies(window, orientation, sensitivity, events) {
        look_all(orientation, sensitivity, window.unwrap().spec_scale() as int, events)
    } else {
        orientation
    }
}

/// What the look step of a frame reports.
pub open spec fn look_outcome(
    window: Option<Window>,
    orientation: (int, int),
    sensitivity: int,
    events: Seq<MouseMotion>,
) -> Result<(), LookError> {
    if window is None {
        Err(LookError::NoPrimaryWindow)
    } else if input_captured(window) && !look_applies(window, orientation, sensitivity, events) {
        Err(LookError::YawOverflow)
    } else {
        Ok(())
    }
}

/// The yaw and the pitch that mouse motion has added up to.
///
/// The pitch stays within the pitch limit. The yaw counts every turn.
#[derive(Clone, Copy, Debug)]
pub struct InputState {
    yaw: i128,
    pitch: i64,
}

impl InputState {
    #[verifier::type_invariant]
    spec fn in_range(self) -> bool {
        -PITCH_LIMIT <= self.pitch <= PITCH_LIMIT
    }

    /// Yaw and pitch, in billionths of a degree.
    pub closed spec fn view(&self) -> (int, int) {
        (self.yaw as int, self.pitch as int)
    }

    /// Looking straight ahead.
    pub fn new() -> (r: InputState)
        ensures
            r@ == (0int, 0int),
    {
        InputState { yaw: 0, pitch: 0 }
    }

    /// Looking along the given yaw and the given pitch, the pitch held
    /// within the pitch limit.
    pub fn at(yaw: i128, pitch: i64) -> (r: InputState)
        ensures
            r@ == (yaw as int, clamp_pitch(pitch as int)),
    {
        InputState { yaw, pitch: clamp(pitch as i128) }
    }

    /// The yaw.
    pub fn yaw(&self) -> (r: i128)
        ensures
            r == self@.0,
    {
        self.yaw
    }

    /// The pitch.
    pub fn pitch(&self) -> (r: i64)
        ensures
            r == self@.1,
            -PITCH_LIMIT <= r <= PITCH_LIMIT,
    {
        proof {
            use_type_invariant(self);
        }
        self.pitch
    }
}

impl Default for InputState {
    /// Looking straight ahead.
    fn default() -> (r: InputState)
        ensures
            r@ == (0int, 0int),
    {
        InputState::new()
    }
}

fn turn_by(sensitivity: i32, motion: i32, scale: u32) -> (r: i128)
    ensures
        r == turn(sensitivity as int, motion as int, scale as int),
        -0x4000_0000_0000_0000_0000_0000 <= r <= 0x4000_0000_0000_0000_0000_0000,
{
    assert(-0x4000_0000_0000_0000 <= sensitivity * motion <= 0x4000_0000_0000_0000)
        by (nonlinear_arith)
        requires
            -0x8000_0000 <= sensitivity <= 0x8000_0000,
            -0x8000_0000 <= motion <= 0x8000_0000,
    ;
    let product: i128 = (sensitivity as i128) * (motion as i128);
    assert(-0x4000_0000_0000_0000_0000_0000 <= product * scale
        <= 0x4000_0000_0000_0000_0000_0000) by (nonlinear_arith)
        requires
            -0x4000_0000_0000_0000 <= product <= 0x4000_0000_0000_0000,
            0 <= scale <= 0x1_0000_0000,
    ;
    product * (scale as i128)
}

fn clamp(angle: i128) -> (r: i64)
    ensures
        r == clamp_pitch(angle as int),
        -PITCH_LIMIT <= r <= PITCH_LIMIT,
{
    if angle < -(PITCH_LIMIT as i128) {
        -PITCH_LIMIT
    } else if angle > (PITCH_LIMIT as i128) {
        PITCH_LIMIT
    } else {
        angle as i64
    }
}

/// The orientation integrator. While the window holds the pointer, every
/// event turns the yaw and the pitch, one event after the other in the
/// order in which they came; the pitch is held within the pitch limit after
/// each, the yaw is not held at all. Then the yaw is written to the body and
/// the pitch to the camera.
///
/// While the cursor is free, the events are dropped and nothing changes.
/// Without a window nothing changes either, and the error says so. Should
/// the yaw after one of the events be more than the machine can count, the
/// step is skipped as a whole, and the error says so.
pub fn player_look(
    window: Option<Window>,
    settings: &MovementSettings,
    motion: &[MouseMotion],
    state: &mut InputState,
    camera: &mut PlayerCamera,
    body: &mut PlayerBody,
) -> (r: Result<(), LookError>)
    ensures
        r == look_outcome(window, old(state)@, settings.spec_sensitivity() as int, motion@),
        final(state)@ == look_step(window, old(state)@, settings.spec_sensitivity() as int, motion@),
        -PITCH_LIMIT <= final(state)@.1 <= PITCH_LIMIT,
        look_applies(window, old(state)@, settings.spec_sensitivity() as int, motion@)
            ==> final(body).yaw == final(state)@.0 && final(camera).pitch == final(state)@.1,
        !look_applies(window, old(state)@, settings.spec_sensitivity() as int, motion@)
            ==> *final(body) == *old(body) && *final(camera) == *old(camera),
{
    proof {
        use_type_invariant(&*state);
    }
    let w = match window {
        Some(w) => w,
        None => {
            return Err(LookError::NoPrimaryWindow);
        },
    };
    if !w.grab.is_locked() {
        return Ok(());
    }
    let scale: u32 = w.scale();
    let sensitivity: i32 = settings.sensitivity();
    let ghost start = state@;
    let mut yaw: i128 = state.yaw;
    let mut pitch: i64 = state.pitch;
    let mut done: usize = 0;
    proof {
        assert(motion@.take(0).len() == 0);
    }
    while done < motion.len()
        invariant
            done <= motion.len(),
            window == Some(w),
            input_captured(window),
            scale == w.spec_scale(),
            sensitivity == settings.spec_sensitivity(),
            start == old(state)@,
            state@ == start,
            -PITCH_LIMIT <= start.1 <= PITCH_LIMIT,
            -PITCH_LIMIT <= pitch <= PITCH_LIMIT,
            (yaw as int, pitch as int) == look_all(
                start,
                sensitivity as int,
                scale as int,
                motion@.take(done as int),
            ),
            forall|seen: int|
                0 <= seen <= done ==> i128::MIN <= look_all(
                    start,
                    sensitivity as int,
                    scale as int,
                    #[trigger] motion@.take(seen),
                ).0 <= i128::MAX,
        decreases motion.len() - done,
    {
        let event: MouseMotion = motion[done];
        proof {
            assert(motion@.take(done + 1).drop_last() == motion@.take(done as int));
            assert(motion@.take(done + 1).last() == event);
        }
        let about_up: i128 = turn_by(sensitivity, event.dx, scale);
        let turned: i128 = match yaw.checked_sub(about_up) {
            Some(turned) => turned,
            None => {
                proof {
                    let after: (int, int) = look_all(
                        start,
                        sensitivity as int,
                        scale as int,
                        motion@.take(done + 1),
                    );
                    assert(after.0 == yaw - about_up);
                    assert(!(i128::MIN <= after.0 <= i128::MAX));
                }
                return Err(LookError::YawOverflow);
            },
        };
        yaw = turned;
        pitch = clamp((pitch as i128) - turn_by(sensitivity, event.dy, scale));
        done += 1;
    }
    proof {
        assert(motion@.take(done as int) == motion@);
    }
    state.yaw = yaw;
    state.pitch = pitch;
    body.yaw = yaw;
    camera.pitch = pitch;
    Ok(())
}

/// The pitch is within the pitch limit after every event.
pub proof fn lemma_pitch_stays_in_range(
    orientation: (int, int),
    sensitivity: int,
    scale: int,
    events: Seq<MouseMotion>,
    seen: int,
)
    requires
        -PITCH_LIMIT <= orientation.1 <= PITCH_LIMIT,
        0 <= seen <= events.len(),
    ensures
        -PITCH_LIMIT <= look_all(orientation, sensitivity, scale, events.take(seen)).1
            <= PITCH_LIMIT,
{
    if seen > 0 {
        assert(events.take(seen).len() > 0);
    }
}

/// The yaw after the events is the yaw before them less the sum of their
/// turns, with nothing taken off and nothing held back.
pub proof fn lemma_yaw_is_the_sum(
    orientation: (int, int),
    sensitivity: int,
    scale: int,
    events: Seq<MouseMotion>,
)
    ensures
        look_all(orientation, sensitivity, scale, events).0 == orientation.0 - total_turn(
            sensitivity,
            scale,
            events,
        ),
    decreases events.len(),
{
    if events.len() > 0 {
        lemma_yaw_is_the_sum(orientation, sensitivity, scale, events.drop_last());
    }
}

/// The most that one event can turn the view by, in billionths of a degree.
pub open spec fn largest_turn() -> int {
    0x4000_0000_0000_0000_0000_0000
}

/// No event turns the yaw by more than the largest turn.
pub proof fn lemma_yaw_moves_slowly(
    orientation: (int, int),
    sensitivity: i32,
    scale: u32,
    events: Seq<MouseMotion>,
)
    ensures
        orientation.0 - events.len() * largest_turn() <= look_all(
            orientation,
            sensitivity as int,
            scale as int,
            events,
        ).0 <= orientation.0 + events.len() * largest_turn(),
    decreases events.len(),
{
    if events.len() > 0 {
        lemma_yaw_moves_slowly(orientation, sensitivity, scale, events.drop_last());
        let motion: int = events.last().dx as int;
        assert(-largest_turn() <= turn(sensitivity as int, motion, scale as int)
            <= largest_turn()) by (nonlinear_arith)
            requires
                -0x8000_0000 <= sensitivity <= 0x8000_0000,
                -0x8000_0000 <= motion <= 0x8000_0000,
                0 <= scale <= 0x1_0000_0000,
        ;
    }
}

/// The machine can count the yaw after each of the events when the yaw
/// before them is far enough from the ends of what it can count: by the
/// largest turn for each event.
pub proof fn lemma_yaw_countable_far_from_the_ends(
    orientation: (int, int),
    sensitivity: i32,
    scale: u32,
    events: Seq<MouseMotion>,
)
    requires
        i128::MIN + events.len() * largest_turn() <= orientation.0,
        orientation.0 <= i128::MAX - events.len() * largest_turn(),
    ensures
        yaw_countable(orientation, sensitivity as int, scale as int, events),
{
    assert forall|seen: int| 0 <= seen <= events.len() implies i128::MIN <= look_all(
        orientation,
        sensitivity as int,
        scale as int,
        #[trigger] events.take(seen),
    ).0 <= i128::MAX by {
        lemma_yaw_moves_slowly(orientation, sensitivity, scale, events.take(seen));
    }
}

/// The events count one by one: to take some of them first and the rest
/// afterwards is to take them all.
pub proof fn lemma_look_all_concat(
    orientation: (int, int),
    sensitivity: int,
    scale: int,
    first: Seq<MouseMotion>,
    rest: Seq<MouseMotion>,
)
    ensures
        look_all(orientation, sensitivity, scale, first + rest) == look_all(
            look_all(orientation, sensitivity, scale, first),
            sensitivity,
            scale,
            rest,
        ),
    decreases rest.len(),
{
    if rest.len() == 0 {
        assert(first + rest == first);
    } else {
        assert((first + rest).drop_last() == first + rest.drop_last());
        assert((first + rest).last() == rest.last());
        lemma_look_all_concat(orientation, sensitivity, scale, first, rest.drop_last());
    }
}

} // verus!
