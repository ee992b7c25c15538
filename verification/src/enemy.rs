//! An enemy: it stands where the level put it until a bullet or an axe hits it.

use vstd::prelude::*;
use crate::collidable::{deleted_by, is_deleted_by, Collidable};
use crate::collidable_object::CollidableObject;
use crate::game_object::GameObject;
use crate::geometry::{GridPoint, Ratio};
use crate::object_type::ObjectType;
use crate::renderable::Renderable;
use crate::renderable_object::RenderableObject;

verus! {

#[derive(Copy, Clone, PartialEq, Eq, Structural, Debug)]
pub struct Enemy {
    pub position: GridPoint,
    pub scale: Ratio,
    pub renderable_object: RenderableObject,
    pub should_delete: bool,
    pub collidable_object: CollidableObject,
    pub is_visible: bool,
}

impl GameObject for Enemy {
    open spec fn marked(&self) -> bool {
        self.should_delete
    }

    open spec fn kind(&self) -> ObjectType {
        ObjectType::Enemy
    }

    open spec fn deletable(&self) -> bool {
        true
    }

    open spec fn scale_factor(&self) -> Ratio {
        self.scale
    }

    fn get_scale(&self) -> (r: Ratio) {
        self.scale
    }

    fn get_should_delete(&self) -> (r: bool) {
        self.should_delete
    }

    fn set_should_delete(&mut self, should_delete: bool)
        ensures
            *final(self) == (Enemy { should_delete, ..*old(self) }),
    {
        self.should_delete = should_delete;
    }

    fn get_object_type(&self) -> (r: ObjectType) {
        ObjectType::Enemy
    }
}

impl Renderable for Enemy {
    open spec fn appearance(&self) -> RenderableObject {
        self.renderable_object
    }

    open spec fn visible(&self) -> bool {
        self.is_visible
    }

    fn get_renderable_object(&self) -> (r: RenderableObject) {
        self.renderable_object
    }

    fn is_visible(&self) -> (r: bool) {
        self.is_visible
    }
}

impl Collidable for Enemy {
    open spec fn footprint(&self) -> CollidableObject {
        self.collidable_object
    }

    fn get_collidable_object(&self) -> (r: CollidableObject) {
        self.collidable_object
    }

    fn collide(&mut self, other_object_type: ObjectType)
        ensures
            *final(self) == (Enemy {
                should_delete: old(self).should_delete || deleted_by(
                    ObjectType::Enemy,
                    other_object_type,
                ),
                ..*old(self)
            }),
    {
        if is_deleted_by(ObjectType::Enemy, other_object_type) {
            self.set_should_delete(true);
        }
    }
}

} // verus!
