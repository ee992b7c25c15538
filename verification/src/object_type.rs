//! The closed set of kinds an entity can be tagged with.

use vstd::prelude::*;

verus! {

/// Tag that tells collision reactions and end-of-level checks what an entity is.
#[derive(Copy, Clone, PartialEq, Eq, Structural, Debug)]
pub enum ObjectType {
    Wall,
    Bullet,
    HandGun,
    GunAxe,
    ShotGun,
    Enemy,
    Player,
    Ground,
}

impl ObjectType {
    /// Whether the tag names one of the three thrown-gun kinds.
    pub open spec fn is_gun(self) -> bool {
        self == ObjectType::HandGun || self == ObjectType::GunAxe || self == ObjectType::ShotGun
    }

    /// Executable form of [`ObjectType::is_gun`].
    pub fn is_gun_kind(self) -> (r: bool)
        ensures
            r == self.is_gun(),
    {
        self == ObjectType::HandGun || self == ObjectType::GunAxe || self == ObjectType::ShotGun
    }
}

} // verus!
