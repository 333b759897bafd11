//! The deserialized scene description the renderer starts from.
//!
//! Reading a scene file from disk and decoding it is an outside concern;
//! the library receives the already-decoded sizes and world.
use vstd::prelude::*;

use crate::world::World;

verus! {

/// The requested canvas size.
#[derive(Clone, Copy, Debug, PartialEq, Eq, Structural)]
pub struct NewCanvas {
    pub width: usize,
    pub height: usize,
}

/// A whole scene description: the canvas size and the world to render.
#[derive(Clone, Debug)]
pub struct InfoMap {
    pub canvas: NewCanvas,
    pub world: World,
}

} // verus!
