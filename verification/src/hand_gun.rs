//! The hand gun: one gun per shot, as often as the player likes.

use vstd::prelude::*;
use crate::game_object::GameObject;
use crate::geometry::Ratio;
use crate::gun::{chain_gun, make_chain_gun, Gun};
use crate::gun_strategy::GunStrategy;
use crate::object_type::ObjectType;

verus! {

#[derive(Copy, Clone, PartialEq, Eq, Structural, Debug)]
pub struct HandGun {
    pub should_delete: bool,
}

impl GameObject for HandGun {
    open spec fn marked(&self) -> bool {
        self.should_delete
    }

    open spec fn kind(&self) -> ObjectType {
        ObjectType::HandGun
    }

    open spec fn deletable(&self) -> bool {
        true
    }

    open spec fn scale_factor(&self) -> Ratio {
        crate::gun::gun_scale_factor()
    }

    fn get_scale(&self) -> (r: Ratio) {
        crate::gun::gun_scale()
    }

    fn get_should_delete(&self) -> (r: bool) {
        self.should_delete
    }

    fn set_should_delete(&mut self, should_delete: bool) {
        self.should_delete = should_delete;
    }

    fn get_object_type(&self) -> (r: ObjectType) {
        ObjectType::HandGun
    }
}

impl GunStrategy for HandGun {
    fn collide(&mut self, other_object_type: ObjectType) {
        if other_object_type == ObjectType::Wall {
            self.set_should_delete(true);
        }
    }

    fn new_gun_strategy(&self) -> (r: Self) {
        HandGun { should_delete: false }
    }

    fn has_gun_depth(&self) -> (r: bool) {
        false
    }

    fn get_gun_depth(&self) -> (r: usize) {
        0
    }

    fn shoot_gun(&self, gun: &Gun, previous: usize) -> (r: Vec<Gun>) {
        self.make_gun(gun, previous)
    }
}

impl HandGun {
    /// The single gun that continues the chain straight ahead of `gun`.
    pub fn make_gun(&self, gun: &Gun, previous: usize) -> (r: Vec<Gun>)
        requires
            gun.depth < usize::MAX,
        ensures
            r@ == seq![chain_gun(*gun, previous, 0)],
    {
        let mut guns: Vec<Gun> = Vec::new();
        guns.push(make_chain_gun(gun, previous, 0));
        assert(guns@ =~= seq![chain_gun(*gun, previous, 0)]);
        guns
    }
}

} // verus!
