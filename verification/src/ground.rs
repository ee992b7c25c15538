//! Walkable ground: decoration under everything else, never deleted.

use vstd::prelude::*;
use crate::game_object::GameObject;
use crate::geometry::{GridPoint, Ratio};
use crate::object_type::ObjectType;
use crate::renderable::Renderable;
use crate::renderable_object::RenderableObject;

verus! {

#[derive(Copy, Clone, PartialEq, Eq, Structural, Debug)]
pub struct Ground {
    pub position: GridPoint,
    pub scale: Ratio,
    pub renderable_object: RenderableObject,
    pub is_visible: bool,
}

impl GameObject for Ground {
    open spec fn marked(&self) -> bool {
        false
    }

    open spec fn kind(&self) -> ObjectType {
        ObjectType::Ground
    }

    open spec fn deletable(&self) -> bool {
        false
    }

    open spec fn scale_factor(&self) -> Ratio {
        self.scale
    }

    fn get_scale(&self) -> (r: Ratio) {
        self.scale
    }

    fn get_should_delete(&self) -> (r: bool) {
        false
    }

    /// Does nothing: ground always survives.
    #[allow(unused_variables)]
    fn set_should_delete(&mut self, should_delete: bool)
        ensures
            *final(self) == *old(self),
    {
    }

    fn get_object_type(&self) -> (r: ObjectType) {
        ObjectType::Ground
    }
}

impl Renderable for Ground {
    open spec fn appearance(&self) -> RenderableObject {
        self.renderable_object
    }

    open spec fn visible(&self) -> bool {
        self.is_visible
    }

    fn get_renderable_object(&self) -> (r: RenderableObject) {
        self.renderable_object
    }

    fn is_visible(&self) -> (r: bool) {
        self.is_visible
    }
}

} // verus!
