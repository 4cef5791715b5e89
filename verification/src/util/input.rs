//! The state of the mouse buttons, kept up to date from window events.
//!
//! A button is *down* from the event that pressed it to the event that
//! released it. It is *pressed* from the event that pressed it to the end of
//! the frame, or to its release if that comes first.

use vstd::prelude::*;

verus! {

/// A button of the mouse.
#[derive(Clone, Copy, Debug, PartialEq, Eq, Structural)]
pub enum MouseButton {
    Left,
    Right,
    Middle,
    /// A button beyond the three, by its number. Nothing is kept for it.
    Other(u16),
}

/// What happened to a button.
#[derive(Clone, Copy, Debug, PartialEq, Eq, Structural)]
pub enum ElementState {
    Pressed,
    Released,
}

/// A window event, as far as the buttons are concerned.
#[derive(Clone, Copy, Debug, PartialEq, Eq, Structural)]
pub enum InputEvent {
    /// A button went down or came up.
    MouseInput { state: ElementState, button: MouseButton },
    /// Anything else.
    Other,
}

/// One flag for each of the three buttons that are kept track of.
pub struct ButtonFlags {
    pub left: bool,
    pub right: bool,
    pub middle: bool,
}

impl ButtonFlags {
    /// No flag set.
    pub open spec fn none() -> ButtonFlags {
        ButtonFlags { left: false, right: false, middle: false }
    }

    /// The flag of `button`; a button beyond the three has none set.
    pub open spec fn of(self, button: MouseButton) -> bool {
        match button {
            MouseButton::Left => self.left,
            MouseButton::Right => self.right,
            MouseButton::Middle => self.middle,
            MouseButton::Other(_) => false,
        }
    }

    /// The flags with that of `button` set to `value`; unchanged for a
    /// button beyond the three.
    pub open spec fn with(self, button: MouseButton, value: bool) -> ButtonFlags {
        match button {
            MouseButton::Left => ButtonFlags { left: value, ..self },
            MouseButton::Right => ButtonFlags { right: value, ..self },
            MouseButton::Middle => ButtonFlags { middle: value, ..self },
            MouseButton::Other(_) => self,
        }
    }
}

/// Which buttons are down, and which were pressed in this frame.
pub struct MouseState {
    is_right_down: bool,
    is_middle_down: bool,
    is_left_down: bool,
    is_right_pressed: bool,
    is_middle_pressed: bool,
    is_left_pressed: bool,
}

impl MouseState {
    /// The buttons that are down.
    pub closed spec fn down(&self) -> ButtonFlags {
        ButtonFlags {
            left: self.is_left_down,
            right: self.is_right_down,
            middle: self.is_middle_down,
        }
    }

    /// The buttons that were pressed in this frame.
    pub closed spec fn pressed(&self) -> ButtonFlags {
        ButtonFlags {
            left: self.is_left_pressed,
            right: self.is_right_pressed,
            middle: self.is_middle_pressed,
        }
    }

    /// Ends the frame: no button counts as pressed any more. What is down
    /// stays down.
    pub fn update(&mut self)
        ensures
            final(self).pressed() == ButtonFlags::none(),
            final(self).down() == old(self).down(),
    {
        self.is_left_pressed = false;
        self.is_middle_pressed = false;
        self.is_right_pressed = false;
    }

    /// Takes in that `button` went down or came up: a press sets both its
    /// flags, a release clears both.
    pub fn handle_mouse_state(&mut self, state: &ElementState, button: &MouseButton)
        ensures
            final(self).down() == old(self).down().with(*button, *state is Pressed),
            final(self).pressed() == old(self).pressed().with(*button, *state is Pressed),
    {
        match button {
            MouseButton::Left => {
                match state {
                    ElementState::Pressed => {
                        self.is_left_down = true;
                        self.is_left_pressed = true;
                    },
                    ElementState::Released => {
                        self.is_left_down = false;
                        self.is_left_pressed = false;
                    },
                }
            },
            MouseButton::Right => {
                match state {
                    ElementState::Pressed => {
                        self.is_right_down = true;
                        self.is_right_pressed = true;
                    },
                    ElementState::Released => {
                        self.is_right_down = false;
                        self.is_right_pressed = false;
                    },
                }
            },
            MouseButton::Middle => {
                match state {
                    ElementState::Pressed => {
                        self.is_middle_down = true;
                        self.is_middle_pressed = true;
                    },
                    ElementState::Released => {
                        self.is_middle_down = false;
                        self.is_middle_pressed = false;
                    },
                }
            },
            MouseButton::Other(_) => {},
        }
    }

    /// Whether `button` is down.
    pub fn is_button_down(&self, button: MouseButton) -> (down: bool)
        ensures
            down == self.down().of(button),
    {
        match button {
            MouseButton::Left => self.is_left_down,
            MouseButton::Right => self.is_right_down,
            MouseButton::Middle => self.is_middle_down,
            MouseButton::Other(_) => false,
        }
    }

    /// Whether `button` was pressed in this frame.
    pub fn is_button_pressed(&self, button: MouseButton) -> (pressed: bool)
        ensures
            pressed == self.pressed().of(button),
    {
        match button {
            MouseButton::Left => self.is_left_pressed,
            MouseButton::Right => self.is_right_pressed,
            MouseButton::Middle => self.is_middle_pressed,
            MouseButton::Other(_) => false,
        }
    }

    /// Whether a drag with `button` is going on: the pointer moved in this
    /// frame while the button was down.
    pub fn on_drag(&self, button: MouseButton, moved: bool) -> (dragging: bool)
        ensures
            dragging == (moved && self.down().of(button)),
    {
        moved && self.is_button_down(button)
    }
}

impl Default for MouseState {
    /// No button down, none pressed.
    fn default() -> (state: Self)
        ensures
            state.down() == ButtonFlags::none(),
            state.pressed() == ButtonFlags::none(),
    {
        MouseState {
            is_right_down: false,
            is_middle_down: false,
            is_left_down: false,
            is_right_pressed: false,
            is_middle_pressed: false,
            is_left_pressed: false,
        }
    }
}

/// Everything that is kept of the user's input.
pub struct InputState {
    pub mouse: MouseState,
}

impl InputState {
    /// Ends the frame.
    pub fn update(&mut self)
        ensures
            final(self).mouse.pressed() == ButtonFlags::none(),
            final(self).mouse.down() == old(self).mouse.down(),
    {
        self.mouse.update();
    }

    /// Whether `event` changes the state: it does where a button went down
    /// or came up, unless the pointer is known to be in the dead zone.
    /// `in_dead_zone` is `None` where there is no dead zone.
    pub open spec fn takes(event: InputEvent, in_dead_zone: Option<bool>) -> bool {
        event is MouseInput && in_dead_zone != Some(true)
    }

    /// Takes in a window event. Events over the dead zone, a part of the
    /// window that belongs to something else, are passed over.
    pub fn update_state(&mut self, event: &InputEvent, in_dead_zone: Option<bool>)
        ensures
            final(self).mouse.down() == if Self::takes(*event, in_dead_zone) {
                old(self).mouse.down().with(event->button, event->state is Pressed)
            } else {
                old(self).mouse.down()
            },
            final(self).mouse.pressed() == if Self::takes(*event, in_dead_zone) {
                old(self).mouse.pressed().with(event->button, event->state is Pressed)
            } else {
                old(self).mouse.pressed()
            },
    {
        match event {
            InputEvent::MouseInput { state, button } => {
                if let Some(inside) = in_dead_zone {
                    if !inside {
                        self.mouse.handle_mouse_state(state, button)
                    }
                } else {
                    self.mouse.handle_mouse_state(state, button)
                }
            },
            InputEvent::Other => {},
        }
    }
}

impl Default for InputState {
    /// No button down, none pressed.
    fn default() -> (state: Self)
        ensures
            state.mouse.down() == ButtonFlags::none(),
            state.mouse.pressed() == ButtonFlags::none(),
    {
        InputState { mouse: MouseState::default() }
    }
}

/// A change to the flag of one button is seen at that button and at no
/// other, and a button beyond the three never has a flag.
pub proof fn lemma_flags_are_separate(
    flags: ButtonFlags,
    button: MouseButton,
    value: bool,
    other: MouseButton,
)
    ensures
        !(button is Other) ==> flags.with(button, value).of(button) == value,
        button is Other ==> flags.with(button, value) == flags && !flags.of(button),
        other != button ==> flags.with(button, value).of(other) == flags.of(other),
{
}

} // verus!
