//! The window events that the UI logic reacts to, with mouse buttons, wheels
//! and keys given as bindable inputs.
use vstd::prelude::*;

use crate::controls::PossibleInputs;

verus! {

#[derive(Clone, Copy, Debug, PartialEq, Eq, Structural)]
pub enum UIEvent {
    MouseButtonPressed { button: PossibleInputs, x: i32, y: i32 },
    MouseButtonReleased { button: PossibleInputs, x: i32, y: i32 },
    MouseMoved { x: i32, y: i32 },
    KeyPressed { code: PossibleInputs, ctrl: bool, alt: bool, shift: bool, system: bool },
    KeyReleased { code: PossibleInputs, ctrl: bool, alt: bool, shift: bool, system: bool },
    TextEntered { unicode: char },
    Resized { width: u32, height: u32 },
    /// Any other window event.
    Other,
}

} // verus!
