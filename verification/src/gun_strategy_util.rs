//! What every weapon kind shares: the first gun of a chain, and the requests
//! that register thrown guns.

use vstd::prelude::*;
use crate::collidable_object::CollidableObject;
use crate::gun::{gun_scale, Gun, Launch, Origin, PROJECTILE_VELOCITY_MAGNITUDE};
use crate::meta_gun::MetaGun;
use crate::renderable_object::RenderableObject;
use crate::world_req::{requests_for, WorldReq};

verus! {

#[derive(Copy, Clone, PartialEq, Eq, Structural, Debug)]
pub struct GunStrategyUtil {}

impl GunStrategyUtil {
    /// The gun that starts the chain of `concept`: thrown from the player's
    /// position towards the pointer, selected, at depth 0, with a fresh copy
    /// of the weapon's rules.
    pub fn shoot_gun_from_player(&self, concept: &MetaGun) -> (r: Vec<Gun>)
        ensures
            r@ == seq![concept@.first_gun()],
    {
        let gun = Gun {
            launch: Launch {
                origin: Origin::Player,
                bearing: 0,
                reach: 0,
                speed: PROJECTILE_VELOCITY_MAGNITUDE,
            },
            scale: gun_scale(),
            renderable_object: RenderableObject { texture: concept.gun_texture },
            selected_renderable_object: RenderableObject { texture: concept.selected_gun_texture },
            collidable_object: CollidableObject::from_texture(&concept.gun_texture),
            gun_texture: concept.gun_texture,
            selected_gun_texture: concept.selected_gun_texture,
            gun_sound: concept.gun_sound,
            gun_behavior: concept.new_gun_strategy(),
            is_selected: true,
            depth: 0,
            is_visible: true,
        };
        let mut guns: Vec<Gun> = Vec::new();
        guns.push(gun);
        assert(guns@ =~= seq![concept@.first_gun()]);
        guns
    }

    /// The requests that register the guns stored under `guns`, two per gun.
    pub fn world_requests_for_guns(&self, guns: &Vec<usize>) -> (r: Vec<WorldReq>)
        ensures
            r@ == requests_for(guns@),
    {
        let mut world_reqs: Vec<WorldReq> = Vec::new();
        let mut i: usize = 0;
        while i < guns.len()
            invariant
                i <= guns@.len(),
                world_reqs@ == requests_for(guns@.take(i as int)),
            decreases guns@.len() - i,
        {
            let ghost before = world_reqs@;
            self.world_requests_for_gun(guns[i], &mut world_reqs);
            proof {
                assert(guns@.take(i + 1) =~= guns@.take(i as int).push(guns@[i as int]));
                assert(world_reqs@ =~= requests_for(guns@.take(i + 1)));
            }
            i += 1;
        }
        proof {
            assert(guns@.take(i as int) =~= guns@);
        }
        world_reqs
    }

    /// Appends the two requests that register the gun stored under `gun`.
    pub fn world_requests_for_gun(&self, gun: usize, world_reqs: &mut Vec<WorldReq>)
        ensures
            final(world_reqs)@ == old(world_reqs)@.push(WorldReq::dynamic_renderable(gun)).push(
                WorldReq::updatable(gun),
            ),
    {
        world_reqs.push(WorldReq::new_dynamic_renderable(gun));
        world_reqs.push(WorldReq::new_updatable(gun));
    }
}

} // verus!
