//! What reaches the dashboard from outside: keys and the ticks of the
//! render clock.
pub mod key;

use crate::input::key::Key;
use vstd::prelude::*;

verus! {

/// An event for the dashboard.
#[derive(Clone, Copy, Debug, PartialEq, Eq, Structural)]
pub enum InputEvent {
    /// A key was pressed.
    Input(Key),
    /// The screen is due to be drawn again.
    Render,
    /// The source of events has closed.
    Quit,
}

/// The event that an optional key press stands for: a closed source of
/// keys quits the dashboard.
pub fn key_event(received: Option<Key>) -> (event: InputEvent)
    ensures
        event == match received {
            Some(key) => InputEvent::Input(key),
            None => InputEvent::Quit,
        },
{
    match received {
        Some(key) => InputEvent::Input(key),
        None => InputEvent::Quit,
    }
}

} // verus!
