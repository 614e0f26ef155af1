//! GPU resource lifecycle and render-thread coordination for a small
//! real-time renderer. Each GPU-facing operation decides which driver calls
//! are made, in which order, and returns them as `GlCall` values; the thread
//! that owns the GPU context performs them. `gl_state` models the binding
//! points those calls touch, so the save/restore and bind/unbind protocols
//! are proved over it.
use vstd::prelude::*;

pub mod bindable;
pub mod errors;
pub mod gl_state;
pub mod helpers;
pub mod input;
pub mod program;
pub mod shader_type;
pub mod triangle;

verus! {

} // verus!
