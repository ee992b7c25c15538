//! What the host needs in order to draw an entity.

use vstd::prelude::*;

verus! {

/// Handle of a texture the host has loaded, with the size of its image.
#[derive(Copy, Clone, PartialEq, Eq, Structural, Debug)]
pub struct Texture {
    pub id: usize,
    pub width: u32,
    pub height: u32,
}

/// Draw data of an entity: the texture to put at the entity's pose.
#[derive(Copy, Clone, PartialEq, Eq, Structural, Debug)]
pub struct RenderableObject {
    pub texture: Texture,
}

} // verus!
