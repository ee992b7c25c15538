//! The closed choice between the weapon kinds.

use vstd::prelude::*;
use crate::game_object::GameObject;
use crate::geometry::Ratio;
use crate::gun::Gun;
use crate::gun_axe::GunAxe;
use crate::gun_strategy::{GunStrategy, GUN_AXE_DEPTH};
use crate::hand_gun::HandGun;
use crate::object_type::ObjectType;
use crate::shot_gun::ShotGun;

verus! {

/// The rules a controller or a thrown gun carries: those of exactly one
/// weapon kind, with that copy's own deletion flag.
#[derive(Copy, Clone, PartialEq, Eq, Structural, Debug)]
pub enum GunBehavior {
    HandGun(HandGun),
    GunAxe(GunAxe),
    ShotGun(ShotGun),
}

/// The gun axe as the rules of a thrown gun.
pub type GunAxeBehavior = GunAxe;

/// The shot gun as the rules of a thrown gun.
pub type ShotGunBehavior = ShotGun;

impl GameObject for GunBehavior {
    open spec fn marked(&self) -> bool {
        match *self {
            GunBehavior::HandGun(s) => s.should_delete,
            GunBehavior::GunAxe(s) => s.should_delete,
            GunBehavior::ShotGun(s) => s.should_delete,
        }
    }

    open spec fn kind(&self) -> ObjectType {
        match *self {
            GunBehavior::HandGun(_) => ObjectType::HandGun,
            GunBehavior::GunAxe(_) => ObjectType::GunAxe,
            GunBehavior::ShotGun(_) => ObjectType::ShotGun,
        }
    }

    open spec fn deletable(&self) -> bool {
        true
    }

    open spec fn scale_factor(&self) -> Ratio {
        crate::gun::gun_scale_factor()
    }

    fn get_scale(&self) -> (r: Ratio) {
        crate::gun::gun_scale()
    }

    fn get_should_delete(&self) -> (r: bool) {
        match self {
            GunBehavior::HandGun(s) => s.should_delete,
            GunBehavior::GunAxe(s) => s.should_delete,
            GunBehavior::ShotGun(s) => s.should_delete,
        }
    }

    fn set_should_delete(&mut self, should_delete: bool)
        ensures
            *final(self) == old(self).with_mark(should_delete),
    {
        match self {
            GunBehavior::HandGun(s) => {
                s.should_delete = should_delete;
            },
            GunBehavior::GunAxe(s) => {
                s.should_delete = should_delete;
            },
            GunBehavior::ShotGun(s) => {
                s.should_delete = should_delete;
            },
        }
    }

    fn get_object_type(&self) -> (r: ObjectType) {
        match self {
            GunBehavior::HandGun(_) => ObjectType::HandGun,
            GunBehavior::GunAxe(_) => ObjectType::GunAxe,
            GunBehavior::ShotGun(_) => ObjectType::ShotGun,
        }
    }
}

impl GunStrategy for GunBehavior {
    fn collide(&mut self, other_object_type: ObjectType)
        ensures
            *final(self) == old(self).with_mark(
                old(self).marked() || other_object_type == ObjectType::Wall,
            ),
    {
        if other_object_type == ObjectType::Wall {
            self.set_should_delete(true);
        }
    }

    fn new_gun_strategy(&self) -> (r: Self)
        ensures
            r == self.fresh(),
    {
        self.clone_state()
    }

    fn has_gun_depth(&self) -> (r: bool) {
        match self {
            GunBehavior::GunAxe(_) => true,
            _ => false,
        }
    }

    fn get_gun_depth(&self) -> (r: usize) {
        match self {
            GunBehavior::GunAxe(_) => GUN_AXE_DEPTH,
            _ => 0,
        }
    }

    fn shoot_gun(&self, gun: &Gun, previous: usize) -> (r: Vec<Gun>) {
        match self {
            GunBehavior::HandGun(s) => s.make_gun(gun, previous),
            GunBehavior::GunAxe(s) => s.make_gun(gun, previous),
            GunBehavior::ShotGun(s) => s.make_guns(gun, previous),
        }
    }
}

impl GunBehavior {
    /// The unmarked rules of the same kind as `self`.
    pub open spec fn fresh(self) -> GunBehavior {
        match self {
            GunBehavior::HandGun(_) => GunBehavior::HandGun(HandGun { should_delete: false }),
            GunBehavior::GunAxe(_) => GunBehavior::GunAxe(GunAxe { should_delete: false }),
            GunBehavior::ShotGun(_) => GunBehavior::ShotGun(ShotGun { should_delete: false }),
        }
    }

    /// The same rules with the deletion flag set to `marked`.
    pub open spec fn with_mark(self, marked: bool) -> GunBehavior {
        match self {
            GunBehavior::HandGun(_) => GunBehavior::HandGun(HandGun { should_delete: marked }),
            GunBehavior::GunAxe(_) => GunBehavior::GunAxe(GunAxe { should_delete: marked }),
            GunBehavior::ShotGun(_) => GunBehavior::ShotGun(ShotGun { should_delete: marked }),
        }
    }

    /// Computes [`GunBehavior::fresh`].
    pub fn clone_state(&self) -> (r: GunBehavior)
        ensures
            r == self.fresh(),
    {
        match self {
            GunBehavior::HandGun(_) => GunBehavior::HandGun(HandGun { should_delete: false }),
            GunBehavior::GunAxe(_) => GunBehavior::GunAxe(GunAxe { should_delete: false }),
            GunBehavior::ShotGun(_) => GunBehavior::ShotGun(ShotGun { should_delete: false }),
        }
    }
}

} // verus!
