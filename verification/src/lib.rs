//! Model and planning logic of a GPU rendering backend for a UI toolkit.
//!
//! Everything here works on plain integer data: pixel and texel coordinates,
//! texture indices and draw commands. The code that owns the GPU context turns
//! the results into driver calls.

use vstd::prelude::*;

pub mod atlas;
pub mod backend;
pub mod builder;
pub mod frame;
pub mod geometry;
pub mod primitive;
pub mod renderer;
pub mod text;

verus! {

/// Keeps the backend's modules linked in; does nothing.
pub fn use_modules() {
}

} // verus!
