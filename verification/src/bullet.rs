//! A bullet in flight.

use vstd::prelude::*;
use crate::collidable::{deleted_by, is_deleted_by, Collidable};
use crate::collidable_object::CollidableObject;
use crate::game_object::GameObject;
use crate::geometry::Ratio;
use crate::gun::{bullet_scale_factor, BULLET_VELOCITY_MAGNITUDE};
use crate::object_type::ObjectType;
use crate::renderable::Renderable;
use crate::renderable_object::{RenderableObject, Texture};

verus! {

/// A bullet: it starts at the pose of the gun it came from and flies straight
/// on along that gun's rotation at `speed` units per second.
#[derive(Copy, Clone, PartialEq, Eq, Structural, Debug)]
pub struct Bullet {
    pub source: usize,
    pub scale: Ratio,
    pub renderable_object: RenderableObject,
    pub speed: u32,
    pub should_delete: bool,
    pub collidable_object: CollidableObject,
    pub is_visible: bool,
}

impl Bullet {
    /// The bullet that the gun stored under `source` turns into.
    pub open spec fn fired_from(source: usize, texture: Texture) -> Bullet {
        Bullet {
            source,
            scale: bullet_scale_factor(),
            renderable_object: RenderableObject { texture },
            speed: BULLET_VELOCITY_MAGNITUDE,
            should_delete: false,
            collidable_object: CollidableObject::of_texture(texture),
            is_visible: true,
        }
    }
}

impl GameObject for Bullet {
    open spec fn marked(&self) -> bool {
        self.should_delete
    }

    open spec fn kind(&self) -> ObjectType {
        ObjectType::Bullet
    }

    open spec fn deletable(&self) -> bool {
        true
    }

    open spec fn scale_factor(&self) -> Ratio {
        self.scale
    }

    fn get_scale(&self) -> (r: Ratio) {
        self.scale
    }

    fn get_should_delete(&self) -> (r: bool) {
        self.should_delete
    }

    fn set_should_delete(&mut self, should_delete: bool)
        ensures
            *final(self) == (Bullet { should_delete, ..*old(self) }),
    {
        self.should_delete = should_delete;
    }

    fn get_object_type(&self) -> (r: ObjectType) {
        ObjectType::Bullet
    }
}

impl Renderable for Bullet {
    open spec fn appearance(&self) -> RenderableObject {
        self.renderable_object
    }

    open spec fn visible(&self) -> bool {
        self.is_visible
    }

    fn get_renderable_object(&self) -> (r: RenderableObject) {
        self.renderable_object
    }

    fn is_visible(&self) -> (r: bool) {
        self.is_visible
    }
}

impl Collidable for Bullet {
    open spec fn footprint(&self) -> CollidableObject {
        self.collidable_object
    }

    fn get_collidable_object(&self) -> (r: CollidableObject) {
        self.collidable_object
    }

    fn collide(&mut self, other_object_type: ObjectType)
        ensures
            *final(self) == (Bullet {
                should_delete: old(self).should_delete || deleted_by(
                    ObjectType::Bullet,
                    other_object_type,
                ),
                ..*old(self)
            }),
    {
        if is_deleted_by(ObjectType::Bullet, other_object_type) {
            self.set_should_delete(true);
        }
    }
}

} // verus!
