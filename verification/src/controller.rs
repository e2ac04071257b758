//! The controller: the state of one actor and the steps of a frame in their
//! fixed order.

use vstd::prelude::*;
use crate::binding::{bind_targets, binding_outcome, BindingError, Variant};
use crate::cursor::{cursor_grab, grab_step, input_captured, Window, WindowError};
use crate::look::{
    look_applies, look_outcome, look_step, player_look, InputState, LookError, MouseMotion,
    PlayerBody, PlayerCamera, PITCH_LIMIT,
};
use crate::movement::{player_move, resolve_movement, HeldKeys, Movement};
use crate::settings::MovementSettings;

verus! {

/// What the platform saw since the last frame.
#[derive(Debug)]
pub struct InputSnapshot {
    /// The movement keys that are down.
    pub keys: HeldKeys,
    /// Whether the toggle key went down since the last frame. A key that was
    /// down before and still is did not go down.
    pub toggle_just_pressed: bool,
    /// The mouse-motion events that came since the last frame, oldest first,
    /// each of them once.
    pub motion: Vec<MouseMotion>,
}

/// What a frame asks of the engine.
#[derive(Clone, Copy, Debug)]
pub struct FrameReport {
    /// The window after the frame: where its grab differs from the grab
    /// before, the cursor is to be confined and hidden, or freed and shown.
    pub window: Option<Window>,
    /// Whether the grab step had the window that it needed.
    pub grab: Result<(), WindowError>,
    /// Whether the look step ran, and why not.
    pub look: Result<(), LookError>,
    /// The body's displacement, or that the move step had no window.
    pub movement: Result<Movement, WindowError>,
}

/// The state of one controlled actor.
#[derive(Clone, Copy, Debug)]
pub struct PlayerController {
    settings: MovementSettings,
    variant: Variant,
    state: InputState,
    body: PlayerBody,
    camera: PlayerCamera,
}

/// The window after a frame.
pub open spec fn frame_window(input: InputSnapshot, window: Option<Window>) -> Option<Window> {
    grab_step(input.toggle_just_pressed, window)
}

/// Yaw and pitch after a frame: the grab step comes first, the look step
/// second.
pub open spec fn frame_orientation(
    input: InputSnapshot,
    window: Option<Window>,
    orientation: (int, int),
    sensitivity: int,
) -> (int, int) {
    look_step(frame_window(input, window), orientation, sensitivity, input.motion@)
}

/// The movement of a frame, as signs along right, up and forward and the
/// step along each: the grab step comes first.
pub open spec fn frame_movement(
    input: InputSnapshot,
    window: Option<Window>,
    speed: int,
    dt_micros: int,
    variant: Variant,
) -> (int, int, int, int) {
    resolve_movement(frame_window(input, window), input.keys, speed, dt_micros, variant)
}

/// Yaw and pitch after a run of frames, each with the window as the
/// platform showed it at that frame.
pub open spec fn frames_orientation(
    inputs: Seq<InputSnapshot>,
    windows: Seq<Option<Window>>,
    orientation: (int, int),
    sensitivity: int,
) -> (int, int)
    recommends
        inputs.len() == windows.len(),
    decreases inputs.len(),
{
    if inputs.len() == 0 || windows.len() == 0 {
        orientation
    } else {
        frame_orientation(
            inputs.last(),
            windows.last(),
            frames_orientation(inputs.drop_last(), windows.drop_last(), orientation, sensitivity),
            sensitivity,
        )
    }
}

impl PlayerController {
    /// The settings.
    pub closed spec fn spec_settings(&self) -> MovementSettings {
        self.settings
    }

    /// How the actor is built.
    pub closed spec fn spec_variant(&self) -> Variant {
        self.variant
    }

    /// Yaw and pitch, in billionths of a degree.
    pub closed spec fn orientation(&self) -> (int, int) {
        self.state@
    }

    /// The body node's rotation.
    pub closed spec fn spec_body(&self) -> PlayerBody {
        self.body
    }

    /// The camera node's rotation.
    pub closed spec fn spec_camera(&self) -> PlayerCamera {
        self.camera
    }

    /// A controller that looks straight ahead, for an actor whose body is
    /// one node and whose camera is one node. `bodies` and `cameras` say how
    /// many nodes the scene offers for each role; with none or several for
    /// one of them there is no controller, and the error says which role has
    /// no target.
    pub fn new(settings: MovementSettings, variant: Variant, bodies: usize, cameras: usize) -> (r:
        Result<PlayerController, BindingError>)
        ensures
            bodies == 1 && cameras == 1 <==> r is Ok,
            match binding_outcome(bodies as int, cameras as int) {
                Err(e) => r == Err::<PlayerController, BindingError>(e),
                Ok(_) => {
                    &&& r is Ok
                    &&& r.unwrap().spec_settings() == settings
                    &&& r.unwrap().spec_variant() == variant
                    &&& r.unwrap().orientation() == (0int, 0int)
                    &&& r.unwrap().spec_body() == (PlayerBody { yaw: 0 })
                    &&& r.unwrap().spec_camera() == (PlayerCamera { pitch: 0 })
                },
            },
    {
        match bind_targets(bodies, cameras) {
            Ok(()) => Ok(
                PlayerController {
                    settings,
                    variant,
                    state: InputState::new(),
                    body: PlayerBody { yaw: 0 },
                    camera: PlayerCamera { pitch: 0 },
                },
            ),
            Err(e) => Err(e),
        }
    }

    /// The settings.
    #[verifier::when_used_as_spec(spec_settings)]
    pub fn settings(&self) -> (r: MovementSettings)
        ensures
            r == self.spec_settings(),
    {
        self.settings
    }

    /// How the actor is built.
    #[verifier::when_used_as_spec(spec_variant)]
    pub fn variant(&self) -> (r: Variant)
        ensures
            r == self.spec_variant(),
    {
        self.variant
    }

    /// The yaw, with every turn that the mouse has made.
    pub fn yaw(&self) -> (r: i128)
        ensures
            r == self.orientation().0,
    {
        self.state.yaw()
    }

    /// The pitch, within the pitch limit.
    pub fn pitch(&self) -> (r: i64)
        ensures
            r == self.orientation().1,
            -PITCH_LIMIT <= r <= PITCH_LIMIT,
    {
        self.state.pitch()
    }

    /// The body node's rotation.
    #[verifier::when_used_as_spec(spec_body)]
    pub fn body(&self) -> (r: PlayerBody)
        ensures
            r == self.spec_body(),
    {
        self.body
    }

    /// The camera node's rotation.
    #[verifier::when_used_as_spec(spec_camera)]
    pub fn camera(&self) -> (r: PlayerCamera)
        ensures
            r == self.spec_camera(),
    {
        self.camera
    }

    /// One frame: the grab step, then the look step, then the move step,
    /// the later steps with the window as the grab step left it.
    pub fn frame(&mut self, input: &InputSnapshot, window: Option<Window>, dt_micros: u32) -> (r:
        FrameReport)
        ensures
            final(self).spec_settings() == old(self).spec_settings(),
            final(self).spec_variant() == old(self).spec_variant(),
            r.window == frame_window(*input, window),
            r.grab == (if input.toggle_just_pressed && window is None {
                Err::<(), WindowError>(WindowError::NoPrimaryWindow)
            } else {
                Ok::<(), WindowError>(())
            }),
            r.look == look_outcome(
                r.window,
                old(self).orientation(),
                old(self).spec_settings().spec_sensitivity() as int,
                input.motion@,
            ),
            final(self).orientation() == frame_orientation(
                *input,
                window,
                old(self).orientation(),
                old(self).spec_settings().spec_sensitivity() as int,
            ),
            -PITCH_LIMIT <= final(self).orientation().1 <= PITCH_LIMIT,
            window is None ==> r.movement == Err::<Movement, WindowError>(
                WindowError::NoPrimaryWindow,
            ),
            window is Some ==> r.movement is Ok && r.movement.unwrap()@ == frame_movement(
                *input,
                window,
                old(self).spec_settings().spec_speed() as int,
                dt_micros as int,
                old(self).spec_variant(),
            ),
            look_applies(
                r.window,
                old(self).orientation(),
                old(self).spec_settings().spec_sensitivity() as int,
                input.motion@,
            ) ==> final(self).spec_body().yaw == final(self).orientation().0
                && final(self).spec_camera().pitch == final(self).orientation().1,
            !look_applies(
                r.window,
                old(self).orientation(),
                old(self).spec_settings().spec_sensitivity() as int,
                input.motion@,
            ) ==> final(self).spec_body() == old(self).spec_body() && final(self).spec_camera()
                == old(self).spec_camera(),
    {
        let (after, grab) = match cursor_grab(input.toggle_just_pressed, window) {
            Ok(after) => (after, Ok(())),
            Err(e) => (window, Err(e)),
        };
        let mut state = self.state;
        let mut camera = self.camera;
        let mut body = self.body;
        let look = player_look(
            after,
            &self.settings,
            input.motion.as_slice(),
            &mut state,
            &mut camera,
            &mut body,
        );
        self.state = state;
        self.camera = camera;
        self.body = body;
        let movement = player_move(after, &input.keys, &self.settings, dt_micros, self.variant);
        FrameReport { window: after, grab, look, movement }
    }
}

/// While the cursor is free, or there is no window, a frame in which the
/// toggle key did not go down changes neither yaw nor pitch and moves
/// nothing, whatever the mouse and the keys did.
pub proof fn lemma_released_frame_changes_nothing(
    input: InputSnapshot,
    window: Option<Window>,
    orientation: (int, int),
    sensitivity: int,
    speed: int,
    dt_micros: int,
    variant: Variant,
)
    requires
        !input_captured(window),
        !input.toggle_just_pressed,
    ensures
        frame_window(input, window) == window,
        frame_orientation(input, window, orientation, sensitivity) == orientation,
        frame_movement(input, window, speed, dt_micros, variant) == (0int, 0int, 0int, 0int),
{
}

/// While the cursor is free, or there is no window, no run of frames in
/// which the toggle key does not go down changes yaw or pitch, and none of
/// the frames moves anything.
pub proof fn lemma_released_frames_change_nothing(
    inputs: Seq<InputSnapshot>,
    windows: Seq<Option<Window>>,
    orientation: (int, int),
    sensitivity: int,
)
    requires
        inputs.len() == windows.len(),
        forall|i: int|
            0 <= i < inputs.len() ==> !input_captured(#[trigger] windows[i])
                && !inputs[i].toggle_just_pressed,
    ensures
        frames_orientation(inputs, windows, orientation, sensitivity) == orientation,
        forall|i: int, speed: int, dt_micros: int, variant: Variant|
            0 <= i < inputs.len() ==> #[trigger] frame_movement(
                inputs[i],
                windows[i],
                speed,
                dt_micros,
                variant,
            ) == (0int, 0int, 0int, 0int),
    decreases inputs.len(),
{
    if inputs.len() > 0 {
        lemma_released_frames_change_nothing(
            inputs.drop_last(),
            windows.drop_last(),
            orientation,
            sensitivity,
        );
    }
}

/// The movement of a frame does not depend on where the camera looks:
/// neither on yaw and pitch before the frame nor on the frame's mouse
/// motion. Two frames that agree in window, keys, toggle, speed and time
/// move the body by the same step along the same axes of its own frame,
/// however far the camera is tilted in either.
pub proof fn lemma_movement_ignores_pitch(
    a: InputSnapshot,
    b: InputSnapshot,
    window: Option<Window>,
    speed: int,
    dt_micros: int,
    variant: Variant,
)
    requires
        a.keys == b.keys,
        a.toggle_just_pressed == b.toggle_just_pressed,
    ensures
        frame_movement(a, window, speed, dt_micros, variant) == frame_movement(
            b,
            window,
            speed,
            dt_micros,
            variant,
        ),
{
}

} // verus!
