//! Deferred requests by which an update asks the world to register an entity.

use vstd::prelude::*;
use crate::entity::Entity;
use crate::bullet::Bullet;
use crate::gun::Gun;

verus! {

#[derive(Copy, Clone, PartialEq, Eq, Structural, Debug)]
pub enum WorldRequestType {
    AddUpdatable,
    AddDynamicRenderable,
}

/// A request to register the entity stored under a handle.
///
/// `AddDynamicRenderable` carries the handle as renderable and as collidable,
/// `AddUpdatable` carries it as updatable.
#[derive(Copy, Clone, PartialEq, Eq, Structural, Debug)]
pub struct WorldReq {
    pub renderable: Option<usize>,
    pub updatable: Option<usize>,
    pub collidable: Option<usize>,
    pub req_type: WorldRequestType,
}

impl WorldReq {
    /// The request to draw the entity under `handle` among the projectiles
    /// and to let it collide.
    pub open spec fn dynamic_renderable(handle: usize) -> WorldReq {
        WorldReq {
            renderable: Some(handle),
            updatable: None,
            collidable: Some(handle),
            req_type: WorldRequestType::AddDynamicRenderable,
        }
    }

    /// The request to step the entity under `handle` every frame.
    pub open spec fn updatable(handle: usize) -> WorldReq {
        WorldReq {
            renderable: None,
            updatable: Some(handle),
            collidable: None,
            req_type: WorldRequestType::AddUpdatable,
        }
    }

    /// Whether the request carries what its type needs, each handle naming a
    /// slot of an arena of `slots` slots.
    pub open spec fn wf(self, slots: nat) -> bool {
        match self.req_type {
            WorldRequestType::AddDynamicRenderable => {
                &&& self.renderable matches Some(r) && r < slots
                &&& self.collidable matches Some(c) && c < slots
            },
            WorldRequestType::AddUpdatable => self.updatable matches Some(u) && u < slots,
        }
    }

    /// Computes [`WorldReq::dynamic_renderable`].
    pub fn new_dynamic_renderable(handle: usize) -> (r: WorldReq)
        ensures
            r == Self::dynamic_renderable(handle),
    {
        WorldReq {
            renderable: Some(handle),
            updatable: None,
            collidable: Some(handle),
            req_type: WorldRequestType::AddDynamicRenderable,
        }
    }

    /// Computes [`WorldReq::updatable`].
    pub fn new_updatable(handle: usize) -> (r: WorldReq)
        ensures
            r == Self::updatable(handle),
    {
        WorldReq {
            renderable: None,
            updatable: Some(handle),
            collidable: None,
            req_type: WorldRequestType::AddUpdatable,
        }
    }
}

/// The requests that register the entities under `handles`: for each handle
/// in turn, first the one that draws it and lets it collide, then the one
/// that steps it.
pub open spec fn requests_for(handles: Seq<usize>) -> Seq<WorldReq> {
    Seq::new(
        2 * handles.len(),
        |i: int|
            if i % 2 == 0 {
                WorldReq::dynamic_renderable(handles[i / 2])
            } else {
                WorldReq::updatable(handles[i / 2])
            },
    )
}

/// Whether every request of `requests` is well-formed over an arena of
/// `slots` slots.
pub open spec fn requests_wf(requests: Seq<WorldReq>, slots: nat) -> bool {
    forall|i: int| 0 <= i < requests.len() ==> (#[trigger] requests[i]).wf(slots)
}

/// The requests for handles below `slots` are well-formed over `slots` slots.
pub proof fn lemma_requests_for_wf(handles: Seq<usize>, slots: nat)
    requires
        forall|i: int| 0 <= i < handles.len() ==> (#[trigger] handles[i]) < slots,
    ensures
        requests_wf(requests_for(handles), slots),
{
    assert forall|i: int| 0 <= i < requests_for(handles).len() implies (#[trigger] requests_for(
        handles,
    )[i]).wf(slots) by {
        assert(handles[i / 2] < slots);
    }
}

/// The `count` handles that follow the last slot of an arena of `base` slots.
pub open spec fn handles_from(base: nat, count: nat) -> Seq<usize> {
    Seq::new(count, |i: int| (base + i) as usize)
}

/// The arena slots that hold `guns`.
pub open spec fn gun_entities(guns: Seq<Gun>) -> Seq<Entity> {
    guns.map_values(|g: Gun| Entity::Gun(g))
}

/// The arena slots that hold `bullets`.
pub open spec fn bullet_entities(bullets: Seq<Bullet>) -> Seq<Entity> {
    bullets.map_values(|b: Bullet| Entity::Bullet(b))
}

/// What an action of the player brought about: the requests to register what
/// it spawned, and the sounds the host is to play, in order.
#[derive(Debug)]
pub struct Fired {
    pub requests: Vec<WorldReq>,
    pub sounds: Vec<usize>,
}

pub struct FiredView {
    pub requests: Seq<WorldReq>,
    pub sounds: Seq<usize>,
}

impl View for Fired {
    type V = FiredView;

    open spec fn view(&self) -> FiredView {
        FiredView { requests: self.requests@, sounds: self.sounds@ }
    }
}

impl FiredView {
    /// Nothing spawned, nothing to play.
    pub open spec fn nothing() -> FiredView {
        FiredView { requests: Seq::empty(), sounds: Seq::empty() }
    }

    /// What `self` and then `next` brought about.
    pub open spec fn followed_by(self, next: FiredView) -> FiredView {
        FiredView { requests: self.requests + next.requests, sounds: self.sounds + next.sounds }
    }
}

impl Fired {
    /// Nothing spawned, nothing to play.
    pub fn nothing() -> (r: Fired)
        ensures
            r@ == FiredView::nothing(),
    {
        Fired { requests: Vec::new(), sounds: Vec::new() }
    }

    /// Appends what `next` brought about.
    pub fn absorb(&mut self, next: Fired)
        ensures
            final(self)@ == old(self)@.followed_by(next@),
    {
        let mut next = next;
        self.requests.append(&mut next.requests);
        self.sounds.append(&mut next.sounds);
    }
}

} // verus!
