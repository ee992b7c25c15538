//! The arena slot: one entity of any kind, addressed by its index.

use vstd::prelude::*;
use crate::bullet::Bullet;
use crate::collidable::{deleted_by, Collidable};
use crate::enemy::Enemy;
use crate::game_object::GameObject;
use crate::ground::Ground;
use crate::gun::Gun;
use crate::object_type::ObjectType;
use crate::wall::Wall;

verus! {

/// What an arena slot holds.
///
/// The player's slot is a marker: the player's state lives in the world
/// itself, so that the player can act on the guns in the arena.
#[derive(Copy, Clone, PartialEq, Eq, Structural, Debug)]
pub enum Entity {
    Wall(Wall),
    Ground(Ground),
    Enemy(Enemy),
    Bullet(Bullet),
    Gun(Gun),
    Player,
}

impl Entity {
    /// The tag of the entity.
    pub open spec fn kind(self) -> ObjectType {
        match self {
            Entity::Wall(_) => ObjectType::Wall,
            Entity::Ground(_) => ObjectType::Ground,
            Entity::Enemy(_) => ObjectType::Enemy,
            Entity::Bullet(_) => ObjectType::Bullet,
            Entity::Gun(g) => g.gun_behavior.kind(),
            Entity::Player => ObjectType::Player,
        }
    }

    /// Whether the entity is to be removed at the next sweep.
    pub open spec fn marked(self) -> bool {
        match self {
            Entity::Enemy(e) => e.should_delete,
            Entity::Bullet(b) => b.should_delete,
            Entity::Gun(g) => g.gun_behavior.marked(),
            Entity::Wall(_) | Entity::Ground(_) | Entity::Player => false,
        }
    }

    /// The same entity with its deletion flag raised; the kinds that are never
    /// deleted stay as they are.
    pub open spec fn mark(self) -> Entity {
        match self {
            Entity::Enemy(e) => Entity::Enemy(Enemy { should_delete: true, ..e }),
            Entity::Bullet(b) => Entity::Bullet(Bullet { should_delete: true, ..b }),
            Entity::Gun(g) => Entity::Gun(g.with_mark(true)),
            Entity::Wall(_) | Entity::Ground(_) | Entity::Player => self,
        }
    }

    /// The entity after it has touched one of kind `other`.
    pub open spec fn collided(self, other: ObjectType) -> Entity {
        if deleted_by(self.kind(), other) {
            self.mark()
        } else {
            self
        }
    }

    /// Whether the entity takes part in collisions.
    pub open spec fn collides(self) -> bool {
        self is Wall || self is Enemy || self is Bullet || self is Gun
    }

    /// Whether the entity is stepped once per frame.
    pub open spec fn updates(self) -> bool {
        self is Player || self is Bullet || self is Gun
    }

    pub fn get_object_type(&self) -> (r: ObjectType)
        ensures
            r == self.kind(),
    {
        match self {
            Entity::Wall(w) => w.get_object_type(),
            Entity::Ground(g) => g.get_object_type(),
            Entity::Enemy(e) => e.get_object_type(),
            Entity::Bullet(b) => b.get_object_type(),
            Entity::Gun(g) => g.get_object_type(),
            Entity::Player => ObjectType::Player,
        }
    }

    pub fn get_should_delete(&self) -> (r: bool)
        ensures
            r == self.marked(),
    {
        match self {
            Entity::Wall(w) => w.get_should_delete(),
            Entity::Ground(g) => g.get_should_delete(),
            Entity::Enemy(e) => e.get_should_delete(),
            Entity::Bullet(b) => b.get_should_delete(),
            Entity::Gun(g) => g.get_should_delete(),
            Entity::Player => false,
        }
    }

    /// Reacts to touching an entity of kind `other_object_type`.
    pub fn collide(&mut self, other_object_type: ObjectType)
        ensures
            *final(self) == old(self).collided(other_object_type),
    {
        match self {
            Entity::Wall(w) => w.collide(other_object_type),
            Entity::Enemy(e) => e.collide(other_object_type),
            Entity::Bullet(b) => b.collide(other_object_type),
            Entity::Gun(g) => g.collide(other_object_type),
            Entity::Ground(_) | Entity::Player => {},
        }
    }

    /// Whether the entity takes part in collisions.
    pub fn is_collidable(&self) -> (r: bool)
        ensures
            r == self.collides(),
    {
        match self {
            Entity::Wall(_) | Entity::Enemy(_) | Entity::Bullet(_) | Entity::Gun(_) => true,
            Entity::Ground(_) | Entity::Player => false,
        }
    }

    /// Whether the entity is stepped once per frame.
    pub fn is_updatable(&self) -> (r: bool)
        ensures
            r == self.updates(),
    {
        match self {
            Entity::Player | Entity::Bullet(_) | Entity::Gun(_) => true,
            Entity::Wall(_) | Entity::Ground(_) | Entity::Enemy(_) => false,
        }
    }
}

/// Marking is idempotent and never changes the kind of an entity.
pub proof fn lemma_mark_properties(e: Entity)
    ensures
        e.mark().kind() == e.kind(),
        e.mark().mark() == e.mark(),
        e.mark().marked() == (e is Enemy || e is Bullet || e is Gun),
        e.marked() ==> e.mark() == e,
{
}

} // verus!
