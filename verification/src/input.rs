//! What the player does with the buttons of the pointer and the keyboard.

use vstd::prelude::*;

verus! {

/// A button, as far as the rules tell buttons apart.
#[derive(Clone, Copy, Debug, PartialEq, Eq, Structural)]
pub enum Button {
    /// The left button of the pointer.
    MouseLeft,
    /// Any other button of the pointer, and every key.
    Other,
}

/// What happened to a button.
#[derive(Clone, Copy, Debug, PartialEq, Eq, Structural)]
pub enum ButtonState {
    /// It went down.
    Pressed,
    /// It came up.
    Released,
}

/// One change of one button.
#[derive(Clone, Copy, Debug, PartialEq, Eq, Structural)]
pub struct ButtonChange {
    /// The button that changed.
    pub button: Button,
    /// What happened to it.
    pub state: ButtonState,
}

impl ButtonChange {
    /// A click on restart is the release of the left button of the pointer.
    /// Pressing it counts for nothing.
    pub open spec fn is_restart_click_spec(self) -> bool {
        self.button == Button::MouseLeft && self.state == ButtonState::Released
    }

    /// Whether this change is a click on restart.
    #[verifier::when_used_as_spec(is_restart_click_spec)]
    pub fn is_restart_click(self) -> (click: bool)
        ensures
            click == self.is_restart_click_spec(),
    {
        self.button == Button::MouseLeft && self.state == ButtonState::Released
    }
}

} // verus!
