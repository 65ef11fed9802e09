//! Controls: entities that receive input states and report the directions
//! currently being input. A direction is `-1`, `0` or `1` on each axis.

use vstd::prelude::*;
use crate::defs::control::{InputState, KeyCode};

verus! {

/// Empty control implementation: never reports any input.
pub struct NullControl {}

impl Default for NullControl {
    fn default() -> (r: NullControl)
        ensures
            r == (NullControl {}),
    {
        NullControl {}
    }
}

impl NullControl {
    /// No-op.
    pub fn update(&mut self)
        ensures
            *final(self) == *old(self),
    {
    }

    /// No-op.
    pub fn process_keyboard_event(&mut self, _keycode: KeyCode, _state: InputState)
        ensures
            *final(self) == *old(self),
    {
    }

    /// No left/right input.
    pub fn get_dx(&self) -> (r: i8)
        ensures
            r == 0,
    {
        0
    }

    /// No up/down input.
    pub fn get_dy(&self) -> (r: i8)
        ensures
            r == 0,
    {
        0
    }
}

/// The direction an axis takes after a key for it goes to `state`: `pressed`
/// while pressed, none once released.
pub open spec fn axis_after(state: InputState, pressed: i8) -> i8 {
    match state {
        InputState::Pressed => pressed,
        InputState::Released => 0,
    }
}

/// The directions `(dx, dy)` after a keyboard event: left and right set the
/// horizontal axis, up and down the vertical one, other keys change nothing.
pub open spec fn directions_after(dirs: (i8, i8), keycode: KeyCode, state: InputState) -> (i8, i8) {
    match keycode {
        KeyCode::Left => (axis_after(state, -1i8), dirs.1),
        KeyCode::Right => (axis_after(state, 1i8), dirs.1),
        KeyCode::Up => (dirs.0, axis_after(state, 1i8)),
        KeyCode::Down => (dirs.0, axis_after(state, -1i8)),
        KeyCode::Unknown => dirs,
    }
}

/// The direction an axis takes after a key for it goes to `state`.
fn axis_value(state: InputState, pressed: i8) -> (r: i8)
    ensures
        r == axis_after(state, pressed),
{
    match state {
        InputState::Pressed => pressed,
        InputState::Released => 0,
    }
}

/// A direction on one axis.
pub open spec fn is_direction(d: i8) -> bool {
    -1 <= d <= 1
}

/// Control driven by keyboard events.
pub struct UserControl {
    dx: i8,
    dy: i8,
}

impl View for UserControl {
    type V = (i8, i8);

    closed spec fn view(&self) -> (i8, i8) {
        (self.dx, self.dy)
    }
}

impl UserControl {
    #[verifier::type_invariant]
    closed spec fn directions_valid(self) -> bool {
        is_direction(self.dx) && is_direction(self.dy)
    }

    /// A control with no direction input.
    pub fn new() -> (r: UserControl)
        ensures
            r@ == (0i8, 0i8),
    {
        UserControl { dx: 0, dy: 0 }
    }

    /// No-op: the directions change on keyboard events only.
    pub fn update(&mut self)
        ensures
            final(self)@ == old(self)@,
    {
    }

    /// Process a keyboard event.
    pub fn process_keyboard_event(&mut self, keycode: KeyCode, state: InputState)
        ensures
            final(self)@ == directions_after(old(self)@, keycode, state),
    {
        proof {
            use_type_invariant(&*self);
        }
        match keycode {
            KeyCode::Left => {
                self.dx = axis_value(state, -1);
            },
            KeyCode::Right => {
                self.dx = axis_value(state, 1);
            },
            KeyCode::Up => {
                self.dy = axis_value(state, 1);
            },
            KeyCode::Down => {
                self.dy = axis_value(state, -1);
            },
            KeyCode::Unknown => {},
        }
    }

    /// The left/right direction currently being input.
    pub fn get_dx(&self) -> (r: i8)
        ensures
            r == self@.0,
            is_direction(r),
    {
        proof {
            use_type_invariant(self);
        }
        self.dx
    }

    /// The up/down direction currently being input.
    pub fn get_dy(&self) -> (r: i8)
        ensures
            r == self@.1,
            is_direction(r),
    {
        proof {
            use_type_invariant(self);
        }
        self.dy
    }
}

/// Every keyboard event keeps both axes within `-1..=1`.
pub proof fn lemma_directions_stay_valid(dirs: (i8, i8), keycode: KeyCode, state: InputState)
    requires
        is_direction(dirs.0),
        is_direction(dirs.1),
    ensures
        is_direction(directions_after(dirs, keycode, state).0),
        is_direction(directions_after(dirs, keycode, state).1),
{
}

/// Left and right events never change the vertical axis, up and down events
/// never change the horizontal axis, and other keys change neither.
pub proof fn lemma_axes_independent(dirs: (i8, i8), keycode: KeyCode, state: InputState)
    ensures
        (keycode == KeyCode::Left || keycode == KeyCode::Right) ==> directions_after(
            dirs,
            keycode,
            state,
        ).1 == dirs.1,
        (keycode == KeyCode::Up || keycode == KeyCode::Down) ==> directions_after(
            dirs,
            keycode,
            state,
        ).0 == dirs.0,
        keycode == KeyCode::Unknown ==> directions_after(dirs, keycode, state) == dirs,
{
}

/// The latest event on an axis decides it, whatever it held before:
/// pressing left gives `-1`, right `1`, up `1`, down `-1`, and releasing any
/// of them gives `0`.
pub proof fn lemma_latest_event_decides(dirs: (i8, i8), keycode: KeyCode, state: InputState)
    ensures
        keycode == KeyCode::Left ==> directions_after(dirs, keycode, state).0 == (
        if state == InputState::Pressed {
            -1i8
        } else {
            0i8
        }),
        keycode == KeyCode::Right ==> directions_after(dirs, keycode, state).0 == (
        if state == InputState::Pressed {
            1i8
        } else {
            0i8
        }),
        keycode == KeyCode::Up ==> directions_after(dirs, keycode, state).1 == (
        if state == InputState::Pressed {
            1i8
        } else {
            0i8
        }),
        keycode == KeyCode::Down ==> directions_after(dirs, keycode, state).1 == (
        if state == InputState::Pressed {
            -1i8
        } else {
            0i8
        }),
{
}

} // verus!
