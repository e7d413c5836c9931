//! The main menu.

use vstd::prelude::*;

verus! {

/// What the user did on the main menu.
#[derive(Debug, Clone, Copy, PartialEq, Eq, Structural)]
pub enum Message {
    /// The loading of a character was asked for.
    LoadCharacter,
    /// The making of a character was asked for.
    NewCharacter,
}

/// The state of the main menu: it holds nothing.
#[derive(Debug, Clone, Copy, PartialEq, Eq, Structural)]
pub struct State {}

/// What the main menu asks the application to do.
#[derive(Debug, Clone, Copy, PartialEq, Eq, Structural)]
pub enum Action {
    /// Nothing.
    Nothing,
}

/// Takes `message` in. The main menu has no state to change and asks for
/// nothing: the application itself opens the screen that the message names.
pub fn update(message: Message) -> (action: Action)
    ensures
        action == Action::Nothing,
{
    Action::Nothing
}

} // verus!
