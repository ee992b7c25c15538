//! The shot gun: every shot that continues a chain forks into two guns.

use vstd::prelude::*;
use crate::game_object::GameObject;
use crate::geometry::Ratio;
use crate::gun::{chain_gun, make_chain_gun, Gun, FORK_BEARING_LEFT, FORK_BEARING_RIGHT};
use crate::gun_strategy::GunStrategy;
use crate::object_type::ObjectType;

verus! {

#[derive(Copy, Clone, PartialEq, Eq, Structural, Debug)]
pub struct ShotGun {
    pub should_delete: bool,
}

impl GameObject for ShotGun {
    open spec fn marked(&self) -> bool {
        self.should_delete
    }

    open spec fn kind(&self) -> ObjectType {
        ObjectType::ShotGun
    }

    open spec fn deletable(&self) -> bool {
        true
    }

    open spec fn scale_factor(&self) -> Ratio {
        crate::gun::gun_scale_factor()
    }

    fn get_scale(&self) -> (r: Ratio) {
        crate::gun::gun_scale()
    }

    fn get_should_delete(&self) -> (r: bool) {
        self.should_delete
    }

    fn set_should_delete(&mut self, should_delete: bool) {
        self.should_delete = should_delete;
    }

    fn get_object_type(&self) -> (r: ObjectType) {
        ObjectType::ShotGun
    }
}

impl GunStrategy for ShotGun {
    fn collide(&mut self, other_object_type: ObjectType) {
        if other_object_type == ObjectType::Wall {
            self.set_should_delete(true);
        }
    }

    fn new_gun_strategy(&self) -> (r: Self) {
        ShotGun { should_delete: false }
    }

    fn has_gun_depth(&self) -> (r: bool) {
        false
    }

    fn get_gun_depth(&self) -> (r: usize) {
        0
    }

    fn shoot_gun(&self, gun: &Gun, previous: usize) -> (r: Vec<Gun>) {
        self.make_guns(gun, previous)
    }
}

impl ShotGun {
    /// One gun of a fork, placed `bearing` degrees off the course of `gun`.
    pub fn make_gun(&self, gun: &Gun, previous: usize, bearing: i32) -> (r: Gun)
        requires
            gun.depth < usize::MAX,
        ensures
            r == chain_gun(*gun, previous, bearing),
    {
        make_chain_gun(gun, previous, bearing)
    }

    /// The two guns of a fork, the one to the left of the course first.
    pub fn make_guns(&self, gun: &Gun, previous: usize) -> (r: Vec<Gun>)
        requires
            gun.depth < usize::MAX,
        ensures
            r@ == seq![
                chain_gun(*gun, previous, FORK_BEARING_LEFT),
                chain_gun(*gun, previous, FORK_BEARING_RIGHT),
            ],
    {
        let gun1 = self.make_gun(gun, previous, FORK_BEARING_LEFT);
        let gun2 = self.make_gun(gun, previous, FORK_BEARING_RIGHT);
        let mut guns: Vec<Gun> = Vec::new();
        guns.push(gun1);
        guns.push(gun2);
        assert(guns@ =~= seq![
            chain_gun(*gun, previous, FORK_BEARING_LEFT),
            chain_gun(*gun, previous, FORK_BEARING_RIGHT),
        ]);
        guns
    }
}

} // verus!
