//! The rule set of a weapon kind.

use vstd::prelude::*;
use crate::game_object::GameObject;
use crate::gun::Gun;
use crate::object_type::ObjectType;

verus! {

/// How many firing actions a depth-limited weapon allows per level attempt.
pub const GUN_AXE_DEPTH: usize = 2;

/// Whether a weapon of kind `kind` limits how many times it may be fired.
pub open spec fn depth_limited(kind: ObjectType) -> bool {
    kind == ObjectType::GunAxe
}

/// The number of firing actions a weapon of kind `kind` allows; zero where
/// the kind sets no limit.
pub open spec fn depth_limit(kind: ObjectType) -> usize {
    if kind == ObjectType::GunAxe {
        GUN_AXE_DEPTH
    } else {
        0
    }
}

/// The rules of one weapon kind, carried by the weapon's controller and, as an
/// independent copy, by every gun it has thrown.
pub trait GunStrategy: GameObject + Sized {
    /// Reacts to touching an entity of kind `other_object_type`: a wall marks
    /// the gun for deletion, nothing else does.
    fn collide(&mut self, other_object_type: ObjectType)
        ensures
            final(self).marked() == (old(self).marked() || (old(self).deletable()
                && other_object_type == ObjectType::Wall)),
            final(self).kind() == old(self).kind(),
            final(self).deletable() == old(self).deletable(),
    ;

    /// A fresh copy of the rules for a newly thrown gun: same kind, unmarked.
    fn new_gun_strategy(&self) -> (r: Self)
        ensures
            !r.marked(),
            r.kind() == self.kind(),
            r.deletable() == self.deletable(),
    ;

    fn has_gun_depth(&self) -> (r: bool)
        ensures
            r == depth_limited(self.kind()),
    ;

    fn get_gun_depth(&self) -> (r: usize)
        ensures
            r == depth_limit(self.kind()),
    ;

    /// The guns that continue a chain whose last gun is `gun`, stored under
    /// the handle `previous`.
    fn shoot_gun(&self, gun: &Gun, previous: usize) -> (r: Vec<Gun>)
        requires
            gun.depth < usize::MAX,
        ensures
            r@ == crate::gun::chain_spawn(self.kind(), *gun, previous),
    ;
}

} // verus!
