//! Driver logic for a UC8151 e-paper panel: a packed one-bit-per-pixel framebuffer,
//! drawing into it, and the controller's register protocol as sequences of steps
//! (line levels, delays, busy waits, register writes) that the owner of the bus
//! carries out.
use vstd::prelude::*;

pub mod display;
pub mod uc8151;

verus! {

} // verus!
