//! The cursor grab: whether the pointer is captured by the window, and the
//! one action that changes it.

use vstd::prelude::*;

verus! {

/// Whether the window holds the pointer.
#[derive(Clone, Copy, Debug, PartialEq, Eq, Structural)]
pub enum CursorGrabState {
    /// The cursor is hidden and confined to the window; input drives the
    /// camera and the body.
    Locked,
    /// The cursor is visible and free; input drives nothing.
    Released,
}

impl CursorGrabState {
    /// The other state.
    pub open spec fn spec_toggled(self) -> CursorGrabState {
        match self {
            CursorGrabState::Locked => CursorGrabState::Released,
            CursorGrabState::Released => CursorGrabState::Locked,
        }
    }

    /// The other state.
    #[verifier::when_used_as_spec(spec_toggled)]
    pub fn toggled(self) -> (r: CursorGrabState)
        ensures
            r == self.spec_toggled(),
    {
        match self {
            CursorGrabState::Locked => CursorGrabState::Released,
            CursorGrabState::Released => CursorGrabState::Locked,
        }
    }

    /// Whether the cursor is confined to the window.
    pub fn is_locked(self) -> (r: bool)
        ensures
            r == (self == CursorGrabState::Locked),
    {
        match self {
            CursorGrabState::Locked => true,
            CursorGrabState::Released => false,
        }
    }

    /// Whether the cursor is drawn: it is hidden exactly while it is
    /// confined.
    pub fn cursor_visible(self) -> (r: bool)
        ensures
            r == (self == CursorGrabState::Released),
    {
        match self {
            CursorGrabState::Locked => false,
            CursorGrabState::Released => true,
        }
    }
}

/// What the controller reads of the primary window, and the grab that it
/// writes back.
#[derive(Clone, Copy, Debug, PartialEq, Eq, Structural)]
pub struct Window {
    /// Width in pixels.
    pub width: u32,
    /// Height in pixels.
    pub height: u32,
    /// Whether the window holds the pointer.
    pub grab: CursorGrabState,
}

impl Window {
    /// The smaller of height and width.
    pub open spec fn spec_scale(self) -> u32 {
        if self.height <= self.width {
            self.height
        } else {
            self.width
        }
    }

    /// The smaller of height and width: the scale by which mouse motion
    /// turns the camera.
    #[verifier::when_used_as_spec(spec_scale)]
    pub fn scale(self) -> (r: u32)
        ensures
            r == self.spec_scale(),
    {
        if self.height <= self.width {
            self.height
        } else {
            self.width
        }
    }
}

/// A step found no primary window to act on. The step is skipped; the next
/// frame is not affected.
#[derive(Clone, Copy, Debug, PartialEq, Eq, Structural)]
pub enum WindowError {
    /// There is no primary window.
    NoPrimaryWindow,
}

/// Whether input drives the camera and the body: there is a window, and it
/// holds the pointer.
pub open spec fn input_captured(window: Option<Window>) -> bool {
    match window {
        Some(w) => w.grab == CursorGrabState::Locked,
        None => false,
    }
}

/// The window after the grab step of a frame: toggled where the toggle key
/// went down in this frame, else as it was.
pub open spec fn grab_step(toggle_just_pressed: bool, window: Option<Window>) -> Option<Window> {
    match window {
        Some(w) if toggle_just_pressed => Some(Window { grab: w.grab.spec_toggled(), ..w }),
        _ => window,
    }
}

/// Whether input drives the camera and the body.
pub fn captures_input(window: Option<Window>) -> (r: bool)
    ensures
        r == input_captured(window),
{
    match window {
        Some(w) => w.grab.is_locked(),
        None => false,
    }
}

/// Flips the window's grab and leaves its size alone.
pub fn toggle_grab_cursor(window: &mut Window)
    ensures
        *final(window) == (Window { grab: old(window).grab.spec_toggled(), ..*old(window) }),
{
    window.grab = window.grab.toggled();
}

/// Grabs the cursor at startup, whatever the window's grab was. Without a
/// window nothing is grabbed, and the error says so.
pub fn startup_grab_cursor(window: Option<Window>) -> (r: Result<Window, WindowError>)
    ensures
        window is Some ==> r == Ok::<Window, WindowError>(
            Window { grab: CursorGrabState::Locked, ..window.unwrap() },
        ),
        window is None ==> r == Err::<Window, WindowError>(WindowError::NoPrimaryWindow),
{
    match window {
        Some(w) => Ok(Window { width: w.width, height: w.height, grab: CursorGrabState::Locked }),
        None => Err(WindowError::NoPrimaryWindow),
    }
}

/// The grab step of a frame. The grab flips when the toggle key went down in
/// this frame, and only then: a key that is held down does not flip it again.
/// The result is the window after the step. When the key went down and there
/// is no window, the step is skipped, and the error says so.
pub fn cursor_grab(toggle_just_pressed: bool, window: Option<Window>) -> (r: Result<
    Option<Window>,
    WindowError,
>)
    ensures
        toggle_just_pressed && window is None ==> r == Err::<Option<Window>, WindowError>(
            WindowError::NoPrimaryWindow,
        ),
        !(toggle_just_pressed && window is None) ==> r == Ok::<Option<Window>, WindowError>(
            grab_step(toggle_just_pressed, window),
        ),
{
    if !toggle_just_pressed {
        return Ok(window);
    }
    match window {
        Some(w) => {
            let mut w = w;
            toggle_grab_cursor(&mut w);
            Ok(Some(w))
        },
        None => Err(WindowError::NoPrimaryWindow),
    }
}

/// Toggling twice gives the state back.
pub proof fn lemma_toggle_twice(state: CursorGrabState)
    ensures
        state.spec_toggled().spec_toggled() == state,
        state.spec_toggled() != state,
{
}

/// Two grab steps in which the toggle key went down leave the window as it
/// was; a grab step in which it did not go down changes nothing.
pub proof fn lemma_grab_step_twice(window: Option<Window>)
    ensures
        grab_step(true, grab_step(true, window)) == window,
        grab_step(false, window) == window,
{
}

} // verus!
