//! The capability of being stepped once per frame.

use vstd::prelude::*;
use crate::bullet::Bullet;
use crate::entity::Entity;
use crate::game_object::GameObject;
use crate::gun::Gun;
use crate::input::ButtonMap;
use crate::meta_gun::{keeps_guns, lemma_keeps_guns_refl};
use crate::player::{Player, Scene};
use crate::world_req::{requests_wf, Fired, FiredView};

verus! {

/// An entity that is stepped every frame.
///
/// A step may put new entities into the arena; it never registers them, but
/// returns the requests to do so. Moving an entity through space is the
/// host's part of the step.
pub trait Updatable: GameObject {
    /// Whether the entity can be stepped over `arena`.
    spec fn ready(&self, arena: Seq<Entity>) -> bool;

    fn update(&mut self, arena: &mut Vec<Entity>, key_states: &ButtonMap, mouse_states: &ButtonMap) -> (fired:
        Fired)
        requires
            old(self).ready(old(arena)@),
        ensures
            final(self).ready(final(arena)@),
            final(self).kind() == old(self).kind(),
            keeps_guns(old(arena)@, final(arena)@),
            requests_wf(fired@.requests, final(arena)@.len()),
    ;
}

impl Updatable for Gun {
    open spec fn ready(&self, arena: Seq<Entity>) -> bool {
        true
    }

    /// Nothing of the rules changes while a gun drifts and turns.
    #[allow(unused_variables)]
    fn update(&mut self, arena: &mut Vec<Entity>, key_states: &ButtonMap, mouse_states: &ButtonMap) -> (fired:
        Fired)
        ensures
            *final(self) == *old(self),
            final(arena)@ == old(arena)@,
            fired@ == FiredView::nothing(),
    {
        proof {
            lemma_keeps_guns_refl(arena@);
        }
        Fired::nothing()
    }
}

impl Updatable for Bullet {
    open spec fn ready(&self, arena: Seq<Entity>) -> bool {
        true
    }

    /// Nothing of the rules changes while a bullet flies.
    #[allow(unused_variables)]
    fn update(&mut self, arena: &mut Vec<Entity>, key_states: &ButtonMap, mouse_states: &ButtonMap) -> (fired:
        Fired)
        ensures
            *final(self) == *old(self),
            final(arena)@ == old(arena)@,
            fired@ == FiredView::nothing(),
    {
        proof {
            lemma_keeps_guns_refl(arena@);
        }
        Fired::nothing()
    }
}

impl Updatable for Player {
    open spec fn ready(&self, arena: Seq<Entity>) -> bool {
        self@.wf(arena)
    }

    /// The player's step: the current weapon prunes its chain, then the
    /// input is applied.
    fn update(&mut self, arena: &mut Vec<Entity>, key_states: &ButtonMap, mouse_states: &ButtonMap) -> (fired:
        Fired)
        ensures
            (Scene { player: final(self)@, arena: final(arena)@, fired: fired@ }) == (Scene {
                player: old(self)@,
                arena: old(arena)@,
                fired: FiredView::nothing(),
            }).after_update(mouse_states@, key_states@),
    {
        let mut world_reqs = Fired::nothing();
        self.update_into(arena, key_states, mouse_states, &mut world_reqs);
        world_reqs
    }
}

} // verus!
