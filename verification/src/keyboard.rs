//! The keyboard decision: which user input ends the application loop.
//! Reading terminal events and driving widget state stay outside the
//! library; only the quit decision is made here.

use vstd::prelude::*;

verus! {

/// What the application loop does with one keyboard event.
#[derive(Clone, Copy, PartialEq, Eq, Structural, Debug)]
pub enum KeyboardHandler {
    /// End the application loop.
    Quit,
    /// Keep going; the event at most adjusted widget state.
    Idle,
}

/// Decides what a typed character means: `q` quits, everything else leaves
/// the loop running.
pub fn classify_char(key: char) -> (action: KeyboardHandler)
    ensures
        action is Quit <==> key == 'q',
{
    if key == 'q' {
        KeyboardHandler::Quit
    } else {
        KeyboardHandler::Idle
    }
}

} // verus!
