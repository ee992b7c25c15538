//! Collision footprints and the rule by which a collision deletes an entity.

use vstd::prelude::*;
use crate::collidable_object::CollidableObject;
use crate::game_object::GameObject;
use crate::object_type::ObjectType;

verus! {

/// Whether an entity of kind `own` is deleted by touching one of kind `other`.
///
/// Each side of a collision decides for itself: a bullet dies on walls and
/// enemies, an enemy on bullets and axes, a thrown gun on walls; walls, ground
/// and the player survive everything.
pub open spec fn deleted_by(own: ObjectType, other: ObjectType) -> bool {
    match own {
        ObjectType::Bullet => other == ObjectType::Wall || other == ObjectType::Enemy,
        ObjectType::Enemy => other == ObjectType::Bullet || other == ObjectType::GunAxe,
        ObjectType::HandGun | ObjectType::GunAxe | ObjectType::ShotGun => other == ObjectType::Wall,
        ObjectType::Wall | ObjectType::Ground | ObjectType::Player => false,
    }
}

/// Computes [`deleted_by`].
pub fn is_deleted_by(own: ObjectType, other: ObjectType) -> (r: bool)
    ensures
        r == deleted_by(own, other),
{
    match own {
        ObjectType::Bullet => other == ObjectType::Wall || other == ObjectType::Enemy,
        ObjectType::Enemy => other == ObjectType::Bullet || other == ObjectType::GunAxe,
        ObjectType::HandGun | ObjectType::GunAxe | ObjectType::ShotGun => other == ObjectType::Wall,
        ObjectType::Wall | ObjectType::Ground | ObjectType::Player => false,
    }
}

/// An entity with a collision footprint and a reaction to being touched.
pub trait Collidable: GameObject {
    /// The unscaled footprint.
    spec fn footprint(&self) -> CollidableObject;

    fn get_collidable_object(&self) -> (r: CollidableObject)
        ensures
            r == self.footprint(),
    ;

    /// Reacts to touching an entity of kind `other_object_type`: the entity is
    /// marked when [`deleted_by`] says so, and is otherwise left as it was.
    fn collide(&mut self, other_object_type: ObjectType)
        ensures
            final(self).marked() == (old(self).marked() || deleted_by(
                old(self).kind(),
                other_object_type,
            )),
            final(self).kind() == old(self).kind(),
            final(self).deletable() == old(self).deletable(),
            final(self).scale_factor() == old(self).scale_factor(),
            final(self).footprint() == old(self).footprint(),
    ;
}

} // verus!
