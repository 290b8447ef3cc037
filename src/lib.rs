//! A CHIP-8 interpreter core: machine state, fetch-decode-execute, and the
//! collaborator traits through which it reaches a display and a keypad.
use vstd::prelude::*;

pub mod cpu;
pub mod input;
pub mod laws;
pub mod renderer;

verus! {

} // verus!
