//! The capability of being drawn.

use vstd::prelude::*;
use crate::game_object::GameObject;
use crate::renderable_object::RenderableObject;

verus! {

/// An entity the host can draw.
pub trait Renderable: GameObject {
    /// The draw data currently in force.
    spec fn appearance(&self) -> RenderableObject;

    /// Whether the entity is drawn at all.
    spec fn visible(&self) -> bool;

    fn get_renderable_object(&self) -> (r: RenderableObject)
        ensures
            r == self.appearance(),
    ;

    fn is_visible(&self) -> (r: bool)
        ensures
            r == self.visible(),
    ;
}

} // verus!
