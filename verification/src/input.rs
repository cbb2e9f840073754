use vstd::prelude::*;

verus! {

/// An action the player can take, driven by keyboard input.
#[derive(Clone, Copy, PartialEq, Eq, Structural, Debug)]
pub enum Action {
    Charge,
    Right,
    Left,
}

/// Which actions are currently pressed, as plain booleans.
#[derive(Clone, Copy, PartialEq, Eq, Structural, Debug)]
pub struct ActionInput {
    pub charge: bool,
    pub right: bool,
    pub left: bool,
}

impl ActionInput {
    /// Whether the given action is pressed in this input state.
    pub open spec fn spec_pressed(self, action: Action) -> bool {
        match action {
            Action::Charge => self.charge,
            Action::Right => self.right,
            Action::Left => self.left,
        }
    }

    /// Whether the given action is pressed in this input state.
    pub fn pressed(&self, action: Action) -> (r: bool)
        ensures
            r == self.spec_pressed(action),
    {
        match action {
            Action::Charge => self.charge,
            Action::Right => self.right,
            Action::Left => self.left,
        }
    }
}

/// The demo's key bindings: `o` charges, `a` moves left, `d` moves
/// right, and every other key is unbound.
pub fn bound_action(key: char) -> (r: Option<Action>)
    ensures
        key == 'o' ==> r == Some(Action::Charge),
        key == 'a' ==> r == Some(Action::Left),
        key == 'd' ==> r == Some(Action::Right),
        key != 'o' && key != 'a' && key != 'd' ==> r is None,
{
    if key == 'o' {
        Some(Action::Charge)
    } else if key == 'a' {
        Some(Action::Left)
    } else if key == 'd' {
        Some(Action::Right)
    } else {
        None
    }
}

} // verus!
