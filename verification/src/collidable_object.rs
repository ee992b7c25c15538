//! The unscaled footprint from which the host builds a bounding box.

use vstd::prelude::*;
use crate::renderable_object::Texture;

verus! {

/// Width and height of an entity's collision box before scaling.
#[derive(Copy, Clone, PartialEq, Eq, Structural, Debug)]
pub struct CollidableObject {
    pub width: u32,
    pub height: u32,
}

impl CollidableObject {
    /// The footprint of an entity drawn with `texture`.
    pub open spec fn of_texture(texture: Texture) -> CollidableObject {
        CollidableObject { width: texture.width, height: texture.height }
    }

    /// Computes [`CollidableObject::of_texture`].
    pub fn from_texture(texture: &Texture) -> (c: CollidableObject)
        ensures
            c == Self::of_texture(*texture),
    {
        CollidableObject { width: texture.width, height: texture.height }
    }
}

} // verus!
