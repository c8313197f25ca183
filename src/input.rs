//! Keyboard modifier state shared with the input handling of the program.
use vstd::prelude::*;

verus! {

/// Which modifier keys are held.
#[derive(Clone, Copy, PartialEq, Eq, Structural, Debug, Default, Hash)]
pub struct Modifiers {
    pub alt: bool,
    pub ctrl: bool,
    pub shift: bool,
}

} // verus!
