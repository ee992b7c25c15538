//! A wall: it blocks guns and bullets and is never deleted.

use vstd::prelude::*;
use crate::collidable::Collidable;
use crate::collidable_object::CollidableObject;
use crate::game_object::GameObject;
use crate::geometry::{GridPoint, Ratio};
use crate::object_type::ObjectType;
use crate::renderable::Renderable;
use crate::renderable_object::RenderableObject;

verus! {

#[derive(Copy, Clone, PartialEq, Eq, Structural, Debug)]
pub struct Wall {
    pub position: GridPoint,
    pub scale: Ratio,
    pub renderable_object: RenderableObject,
    pub collidable_object: CollidableObject,
    pub is_visible: bool,
}

impl GameObject for Wall {
    open spec fn marked(&self) -> bool {
        false
    }

    open spec fn kind(&self) -> ObjectType {
        ObjectType::Wall
    }

    open spec fn deletable(&self) -> bool {
        false
    }

    open spec fn scale_factor(&self) -> Ratio {
        self.scale
    }

    fn get_scale(&self) -> (r: Ratio) {
        self.scale
    }

    fn get_should_delete(&self) -> (r: bool) {
        false
    }

    /// Does nothing: a wall always survives.
    #[allow(unused_variables)]
    fn set_should_delete(&mut self, should_delete: bool)
        ensures
            *final(self) == *old(self),
    {
    }

    fn get_object_type(&self) -> (r: ObjectType) {
        ObjectType::Wall
    }
}

impl Renderable for Wall {
    open spec fn appearance(&self) -> RenderableObject {
        self.renderable_object
    }

    open spec fn visible(&self) -> bool {
        self.is_visible
    }

    fn get_renderable_object(&self) -> (r: RenderableObject) {
        self.renderable_object
    }

    fn is_visible(&self) -> (r: bool) {
        self.is_visible
    }
}

impl Collidable for Wall {
    open spec fn footprint(&self) -> CollidableObject {
        self.collidable_object
    }

    fn get_collidable_object(&self) -> (r: CollidableObject) {
        self.collidable_object
    }

    /// Does nothing: whatever touches a wall, the wall stays.
    fn collide(&mut self, _other_object_type: ObjectType)
        ensures
            *final(self) == *old(self),
    {
    }
}

} // verus!
