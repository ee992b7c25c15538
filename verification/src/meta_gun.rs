//! The controller of one weapon: its chain of guns in flight and what it may
//! still do in this level attempt.

use vstd::prelude::*;
use crate::bullet::Bullet;
use crate::collidable_object::CollidableObject;
use crate::entity::Entity;
use crate::game_object::GameObject;
use crate::gun::{chain_spawn, gun_scale_factor, Gun, Launch, Origin, PROJECTILE_VELOCITY_MAGNITUDE};
use crate::gun_behavior::GunBehavior;
use crate::gun_strategy::{depth_limit, depth_limited, GunStrategy};
use crate::gun_strategy_util::GunStrategyUtil;
use crate::handles::{kept, lemma_kept_members, retain_live};
use crate::renderable_object::{RenderableObject, Texture};
use crate::world_req::{
    bullet_entities, gun_entities, handles_from, lemma_requests_for_wf, requests_for, requests_wf,
    Fired, FiredView, WorldReq,
};

verus! {

#[derive(Debug)]
pub struct MetaGun {
    pub gun_texture: Texture,
    pub selected_gun_texture: Texture,
    pub gun_sound: usize,
    pub bullet_texture: Texture,
    pub bullet_sound: usize,
    pub gun_strategy: GunBehavior,
    pub shots_taken: usize,
    pub guns: Vec<usize>,
    pub has_shot_bullet: bool,
    pub is_selected: bool,
}

/// The controller with its chain as a sequence of handles.
pub struct MetaGunView {
    pub gun_texture: Texture,
    pub selected_gun_texture: Texture,
    pub gun_sound: usize,
    pub bullet_texture: Texture,
    pub bullet_sound: usize,
    pub gun_strategy: GunBehavior,
    pub shots_taken: usize,
    pub guns: Seq<usize>,
    pub has_shot_bullet: bool,
    pub is_selected: bool,
}

impl View for MetaGun {
    type V = MetaGunView;

    open spec fn view(&self) -> MetaGunView {
        MetaGunView {
            gun_texture: self.gun_texture,
            selected_gun_texture: self.selected_gun_texture,
            gun_sound: self.gun_sound,
            bullet_texture: self.bullet_texture,
            bullet_sound: self.bullet_sound,
            gun_strategy: self.gun_strategy,
            shots_taken: self.shots_taken,
            guns: self.guns@,
            has_shot_bullet: self.has_shot_bullet,
            is_selected: self.is_selected,
        }
    }
}

/// Whether `after` keeps every slot of `before`, each gun still a gun of the
/// same depth.
pub open spec fn keeps_guns(before: Seq<Entity>, after: Seq<Entity>) -> bool {
    &&& before.len() <= after.len()
    &&& forall|h: int|
        0 <= h < before.len() ==> (#[trigger] before[h] matches Entity::Gun(g) ==> (
        after[h] matches Entity::Gun(k) && k.depth == g.depth))
}

/// `arena` with the highlight of the gun under `handle` set to `selected`.
pub open spec fn with_highlight(arena: Seq<Entity>, handle: usize, selected: bool) -> Seq<Entity> {
    if handle < arena.len() {
        match arena[handle as int] {
            Entity::Gun(g) => arena.update(handle as int, Entity::Gun(g.with_selected(selected))),
            _ => arena,
        }
    } else {
        arena
    }
}

impl MetaGunView {
    /// The weapon kind.
    pub open spec fn kind(self) -> crate::object_type::ObjectType {
        self.gun_strategy.kind()
    }

    /// Whether the chain refers to guns of `arena` only, none deeper than the
    /// shots taken allow, and no more shots were taken than `arena` has slots.
    pub open spec fn wf(self, arena: Seq<Entity>) -> bool {
        &&& self.shots_taken <= arena.len()
        &&& forall|i: int|
            0 <= i < self.guns.len() ==> {
                &&& (#[trigger] self.guns[i]) < arena.len()
                &&& arena[self.guns[i] as int] matches Entity::Gun(g) && g.depth < self.shots_taken
            }
    }

    pub open spec fn has_guns_in_play(self) -> bool {
        self.guns.len() > 0
    }

    /// A volley is possible while none was fired and a gun is in flight.
    pub open spec fn can_shoot_bullet(self) -> bool {
        !self.has_shot_bullet && self.guns.len() > 0
    }

    /// A gun can be thrown while no volley was fired and the depth limit, if
    /// the kind has one, is not used up.
    pub open spec fn can_shoot_gun(self) -> bool {
        !self.has_shot_bullet && !(depth_limited(self.kind()) && self.shots_taken >= depth_limit(
            self.kind(),
        ))
    }

    /// The gun that starts a chain: thrown from the player, selected, depth 0.
    pub open spec fn first_gun(self) -> Gun {
        Gun {
            launch: Launch {
                origin: Origin::Player,
                bearing: 0,
                reach: 0,
                speed: PROJECTILE_VELOCITY_MAGNITUDE,
            },
            scale: gun_scale_factor(),
            renderable_object: RenderableObject { texture: self.gun_texture },
            selected_renderable_object: RenderableObject { texture: self.selected_gun_texture },
            collidable_object: CollidableObject::of_texture(self.gun_texture),
            gun_texture: self.gun_texture,
            selected_gun_texture: self.selected_gun_texture,
            gun_sound: self.gun_sound,
            gun_behavior: self.gun_strategy.fresh(),
            is_selected: true,
            depth: 0,
            is_visible: true,
        }
    }

    /// The guns a firing action spawns: the first gun where the chain is
    /// empty, else what the last gun of the chain spawns by its own rules.
    pub open spec fn new_guns(self, arena: Seq<Entity>) -> Seq<Gun> {
        if self.guns.len() == 0 {
            seq![self.first_gun()]
        } else {
            match arena[self.guns.last() as int] {
                Entity::Gun(g) => chain_spawn(g.gun_behavior.kind(), g, self.guns.last()),
                _ => Seq::empty(),
            }
        }
    }

    /// The controller after the gun trigger: unchanged where firing is
    /// rejected, else the new guns join the chain and one more shot is taken.
    pub open spec fn fired(self, arena: Seq<Entity>) -> MetaGunView {
        if self.can_shoot_gun() {
            MetaGunView {
                guns: self.guns + handles_from(arena.len(), self.new_guns(arena).len()),
                shots_taken: (self.shots_taken + 1) as usize,
                ..self
            }
        } else {
            self
        }
    }

    /// The arena after the gun trigger: unchanged where firing is rejected,
    /// else the last gun of the chain loses its highlight and the new guns
    /// follow the old slots.
    pub open spec fn arena_after_fire(self, arena: Seq<Entity>) -> Seq<Entity> {
        if self.can_shoot_gun() {
            if self.guns.len() == 0 {
                arena + gun_entities(self.new_guns(arena))
            } else {
                with_highlight(arena, self.guns.last(), false) + gun_entities(self.new_guns(arena))
            }
        } else {
            arena
        }
    }

    /// What the gun trigger brings about: the requests for the new guns and
    /// the firing sound once, or nothing where firing is rejected.
    pub open spec fn fire_report(self, arena: Seq<Entity>) -> FiredView {
        if self.can_shoot_gun() {
            FiredView {
                requests: requests_for(handles_from(arena.len(), self.new_guns(arena).len())),
                sounds: seq![self.gun_sound],
            }
        } else {
            FiredView::nothing()
        }
    }

    /// The bullets of a volley: one per gun of the chain, in chain order.
    pub open spec fn bullets(self) -> Seq<Bullet> {
        Seq::new(self.guns.len(), |i: int| Bullet::fired_from(self.guns[i], self.bullet_texture))
    }

    /// The controller after the bullet trigger: the volley latches where one
    /// is possible.
    pub open spec fn volleyed(self) -> MetaGunView {
        if self.can_shoot_bullet() {
            MetaGunView { has_shot_bullet: true, ..self }
        } else {
            self
        }
    }

    /// The arena after the bullet trigger.
    pub open spec fn arena_after_volley(self, arena: Seq<Entity>) -> Seq<Entity> {
        if self.can_shoot_bullet() {
            arena + bullet_entities(self.bullets())
        } else {
            arena
        }
    }

    /// What the bullet trigger brings about: the requests for the bullets and
    /// the bullet sound once per bullet, or nothing where no volley is
    /// possible.
    pub open spec fn volley_report(self, arena: Seq<Entity>) -> FiredView {
        if self.can_shoot_bullet() {
            FiredView {
                requests: requests_for(handles_from(arena.len(), self.guns.len())),
                sounds: Seq::new(self.guns.len(), |i: int| self.bullet_sound),
            }
        } else {
            FiredView::nothing()
        }
    }

    /// The controller after the per-frame update: guns marked for deletion
    /// have left the chain.
    pub open spec fn pruned(self, arena: Seq<Entity>) -> MetaGunView {
        MetaGunView { guns: kept(self.guns, arena), ..self }
    }

    /// The arena after the per-frame update: the last gun that stays in the
    /// chain is highlighted.
    pub open spec fn arena_after_prune(self, arena: Seq<Entity>) -> Seq<Entity> {
        let kept = self.pruned(arena).guns;
        if kept.len() > 0 {
            with_highlight(arena, kept.last(), true)
        } else {
            arena
        }
    }

    /// The controller after it was selected or deselected.
    pub open spec fn selected(self, selected: bool) -> MetaGunView {
        MetaGunView { is_selected: selected, ..self }
    }

    /// The arena after the controller was selected or deselected: the last
    /// gun of the chain follows the controller.
    pub open spec fn arena_after_select(self, arena: Seq<Entity>, selected: bool) -> Seq<Entity> {
        if self.guns.len() > 0 {
            with_highlight(arena, self.guns.last(), selected)
        } else {
            arena
        }
    }

    /// How many shots the depth limit still allows, where the kind has one.
    pub open spec fn shots_remaining(self) -> Option<usize> {
        if depth_limited(self.kind()) {
            if self.shots_taken >= depth_limit(self.kind()) {
                Some(0usize)
            } else {
                Some((depth_limit(self.kind()) - self.shots_taken) as usize)
            }
        } else {
            None
        }
    }
}

/// Sets the highlight of the gun under `handle`; any other slot, and a handle
/// without a slot, leave the arena as it is.
pub fn set_highlight(arena: &mut Vec<Entity>, handle: usize, selected: bool)
    ensures
        final(arena)@ == with_highlight(old(arena)@, handle, selected),
        keeps_guns(old(arena)@, final(arena)@),
        final(arena)@.len() == old(arena)@.len(),
{
    if handle < arena.len() {
        match arena[handle] {
            Entity::Gun(g) => {
                let mut gun = g;
                gun.is_selected = selected;
                arena[handle] = Entity::Gun(gun);
            },
            _ => {},
        }
    }
}

/// A well-formed controller stays well-formed when the arena keeps its guns.
pub proof fn lemma_wf_kept(concept: MetaGunView, before: Seq<Entity>, after: Seq<Entity>)
    requires
        concept.wf(before),
        keeps_guns(before, after),
    ensures
        concept.wf(after),
{
    assert forall|i: int| 0 <= i < concept.guns.len() implies {
        &&& (#[trigger] concept.guns[i]) < after.len()
        &&& after[concept.guns[i] as int] matches Entity::Gun(g) && g.depth < concept.shots_taken
    } by {
        let h = concept.guns[i] as int;
        assert(before[h] is Gun);
    }
}

impl MetaGun {
    /// A controller at the start of a level attempt: nothing in flight,
    /// nothing fired, not selected.
    pub fn new(
        gun_texture: Texture,
        selected_gun_texture: Texture,
        gun_sound: usize,
        bullet_texture: Texture,
        bullet_sound: usize,
        gun_strategy: GunBehavior,
    ) -> (r: MetaGun)
        ensures
            r@ == (MetaGunView {
                gun_texture,
                selected_gun_texture,
                gun_sound,
                bullet_texture,
                bullet_sound,
                gun_strategy,
                shots_taken: 0,
                guns: Seq::empty(),
                has_shot_bullet: false,
                is_selected: false,
            }),
            forall|arena: Seq<Entity>| r@.wf(arena),
    {
        MetaGun {
            gun_texture,
            selected_gun_texture,
            gun_sound,
            bullet_texture,
            bullet_sound,
            gun_strategy,
            shots_taken: 0,
            guns: Vec::new(),
            has_shot_bullet: false,
            is_selected: false,
        }
    }

    pub fn has_guns_in_play(&self) -> (r: bool)
        ensures
            r == self@.has_guns_in_play(),
    {
        self.guns.len() > 0
    }

    pub fn has_gun_depth(&self) -> (r: bool)
        ensures
            r == depth_limited(self@.kind()),
    {
        self.gun_strategy.has_gun_depth()
    }

    pub fn get_gun_depth(&self) -> (r: usize)
        ensures
            r == depth_limit(self@.kind()),
    {
        self.gun_strategy.get_gun_depth()
    }

    /// A fresh copy of the weapon's rules for a gun about to be thrown.
    pub fn new_gun_strategy(&self) -> (r: GunBehavior)
        ensures
            r == self.gun_strategy.fresh(),
    {
        self.gun_strategy.new_gun_strategy()
    }

    /// Selects or deselects the weapon; the last gun of its chain follows.
    pub fn set_selected(&mut self, arena: &mut Vec<Entity>, selected: bool)
        ensures
            final(self)@ == old(self)@.selected(selected),
            final(arena)@ == old(self)@.arena_after_select(old(arena)@, selected),
            keeps_guns(old(arena)@, final(arena)@),
            final(arena)@.len() == old(arena)@.len(),
    {
        self.is_selected = selected;
        let n = self.guns.len();
        if n > 0 {
            let last = self.guns[n - 1];
            set_highlight(arena, last, selected);
        }
    }

    /// The per-frame update: guns marked for deletion leave the chain, and
    /// the last gun that stays is highlighted.
    pub fn update(&mut self, arena: &mut Vec<Entity>)
        requires
            old(self)@.wf(old(arena)@),
        ensures
            final(self)@ == old(self)@.pruned(old(arena)@),
            final(arena)@ == old(self)@.arena_after_prune(old(arena)@),
            final(self)@.wf(final(arena)@),
            keeps_guns(old(arena)@, final(arena)@),
            final(arena)@.len() == old(arena)@.len(),
    {
        retain_live(&mut self.guns, arena);
        let n = self.guns.len();
        if n > 0 {
            let last = self.guns[n - 1];
            set_highlight(arena, last, true);
        }
        proof {
            assert forall|k: int| 0 <= k < self.guns@.len() implies {
                &&& (#[trigger] self.guns@[k]) < old(arena)@.len()
                &&& old(arena)@[self.guns@[k] as int] matches Entity::Gun(g) && g.depth
                    < self.shots_taken
            } by {
                lemma_kept_members(old(self).guns@, old(arena)@);
                let h = self.guns@[k];
                assert(old(self).guns@.contains(h));
                let j = choose|j: int| 0 <= j < old(self).guns@.len() && old(self).guns@[j] == h;
                assert(old(self).guns@[j] == h);
            }
            assert(self@.wf(old(arena)@));
            lemma_wf_kept(self@, old(arena)@, arena@);
        }
    }

    /// Whether the controller is well-formed over `arena`.
    pub fn is_valid(&self, arena: &Vec<Entity>) -> (r: bool)
        ensures
            r == self@.wf(arena@),
    {
        if self.shots_taken > arena.len() {
            return false;
        }
        let mut i: usize = 0;
        while i < self.guns.len()
            invariant
                i <= self.guns@.len(),
                self.shots_taken <= arena@.len(),
                forall|k: int|
                    0 <= k < i ==> {
                        &&& (#[trigger] self.guns@[k]) < arena@.len()
                        &&& arena@[self.guns@[k] as int] matches Entity::Gun(g) && g.depth
                            < self.shots_taken
                    },
            decreases self.guns@.len() - i,
        {
            let handle = self.guns[i];
            if handle >= arena.len() {
                return false;
            }
            match arena[handle] {
                Entity::Gun(g) => {
                    if g.depth >= self.shots_taken {
                        return false;
                    }
                },
                _ => {
                    return false;
                },
            }
            i += 1;
        }
        true
    }

        pub fn can_shoot_bullet(&self) -> (r: bool)
        ensures
            r == self@.can_shoot_bullet(),
    {
        if self.has_shot_bullet {
            return false;
        }
        if self.guns.len() == 0 {
            return false;
        }
        true
    }

    pub fn can_shoot_gun(&self) -> (r: bool)
        ensures
            r == self@.can_shoot_gun(),
    {
        if self.has_shot_bullet {
            return false;
        }
        if self.has_gun_depth() && self.shots_taken >= self.get_gun_depth() {
            return false;
        }
        true
    }

    /// How many shots the depth limit still allows; `None` where the weapon
    /// has no limit.
    pub fn shots_remaining(&self) -> (r: Option<usize>)
        ensures
            r == self@.shots_remaining(),
    {
        if self.has_gun_depth() {
            let depth = self.get_gun_depth();
            if self.shots_taken >= depth {
                Some(0)
            } else {
                Some(depth - self.shots_taken)
            }
        } else {
            None
        }
    }

    /// How many volleys are left: one until the volley was fired.
    pub fn bullets_remaining(&self) -> (r: usize)
        ensures
            r == (if self.has_shot_bullet { 0usize } else { 1usize }),
    {
        if self.has_shot_bullet {
            0
        } else {
            1
        }
    }

    /// The two requests that register the bullet stored under `bullet`.
    pub fn world_requests_for_bullet(&self, bullet: usize) -> (r: Vec<WorldReq>)
        ensures
            r@ == requests_for(seq![bullet]),
    {
        let mut world_reqs: Vec<WorldReq> = Vec::new();
        world_reqs.push(WorldReq::new_dynamic_renderable(bullet));
        world_reqs.push(WorldReq::new_updatable(bullet));
        assert(world_reqs@ =~= requests_for(seq![bullet]));
        world_reqs
    }

    /// The gun trigger. Firing is rejected, and nothing changes, once the
    /// volley was fired or the depth limit is used up. Else the chain grows:
    /// by the first gun where it is empty, by what its last gun spawns where
    /// it is not, that gun losing its highlight; one more shot is taken, and
    /// the firing sound is due once however many guns were spawned.
    pub fn shoot_gun(&mut self, arena: &mut Vec<Entity>) -> (fired: Fired)
        requires
            old(self)@.wf(old(arena)@),
        ensures
            final(self)@ == old(self)@.fired(old(arena)@),
            final(arena)@ == old(self)@.arena_after_fire(old(arena)@),
            fired@ == old(self)@.fire_report(old(arena)@),
            final(self)@.wf(final(arena)@),
            keeps_guns(old(arena)@, final(arena)@),
            requests_wf(fired@.requests, final(arena)@.len()),
    {
        if !self.can_shoot_gun() {
            proof {
                lemma_keeps_guns_refl(arena@);
            }
            return Fired::nothing();
        }
        let util = GunStrategyUtil {  };
        let base = arena.len();
        let chain_len = self.guns.len();
        let new_guns = if chain_len == 0 {
            util.shoot_gun_from_player(self)
        } else {
            let last = self.guns[chain_len - 1];
            let gun = gun_at(arena, last);
            set_highlight(arena, last, false);
            gun.shoot_gun(last)
        };
        let ghost spawned = old(self)@.new_guns(old(arena)@);
        let ghost dimmed = arena@;
        assert(new_guns@ == spawned);
        assert(spawned.len() >= 1);
        let mut added: Vec<usize> = Vec::new();
        let mut i: usize = 0;
        while i < new_guns.len()
            invariant
                i <= new_guns@.len(),
                dimmed.len() == base,
                arena@ == dimmed + gun_entities(new_guns@.take(i as int)),
                added@ == handles_from(base as nat, i as nat),
            decreases new_guns@.len() - i,
        {
            let handle = arena.len();
            arena.push(Entity::Gun(new_guns[i]));
            added.push(handle);
            proof {
                assert(new_guns@.take(i + 1) =~= new_guns@.take(i as int).push(new_guns@[i as int]));
                assert(arena@ =~= dimmed + gun_entities(new_guns@.take(i + 1)));
                assert(added@ =~= handles_from(base as nat, (i + 1) as nat));
            }
            i += 1;
        }
        proof {
            assert(new_guns@.take(i as int) =~= new_guns@);
        }
        let total = arena.len();
        let requests = util.world_requests_for_guns(&added);
        let mut added = added;
        self.guns.append(&mut added);
        self.shots_taken += 1;
        let mut sounds: Vec<usize> = Vec::new();
        sounds.push(self.gun_sound);
        proof {
            assert(sounds@ =~= seq![self.gun_sound]);
            lemma_requests_for_wf(handles_from(base as nat, spawned.len()), arena@.len());
            assert(keeps_guns(old(arena)@, arena@));
            assert forall|k: int| 0 <= k < self.guns@.len() implies {
                &&& (#[trigger] self.guns@[k]) < arena@.len()
                &&& arena@[self.guns@[k] as int] matches Entity::Gun(g) && g.depth
                    < self.shots_taken
            } by {
                if k < chain_len {
                    let h = old(self).guns@[k] as int;
                    assert(old(arena)@[h] is Gun);
                } else {
                    let j = k - chain_len;
                    assert(self.guns@[k] == base + j);
                    assert(arena@[base + j] == Entity::Gun(spawned[j]));
                    if chain_len > 0 {
                        let last = old(self).guns@[chain_len - 1] as int;
                        assert(old(arena)@[last] is Gun);
                    }
                }
            }
        }
        Fired { requests, sounds }
    }

    /// The bullet trigger. Nothing happens once the volley was fired or while
    /// no gun is in flight. Else every gun of the chain, in chain order,
    /// yields a bullet that starts at that gun's pose; the bullet sound is due
    /// once per bullet, and the volley latches for the rest of the attempt.
    pub fn shoot_bullets(&mut self, arena: &mut Vec<Entity>) -> (fired: Fired)
        requires
            old(self)@.wf(old(arena)@),
        ensures
            final(self)@ == old(self)@.volleyed(),
            final(arena)@ == old(self)@.arena_after_volley(old(arena)@),
            fired@ == old(self)@.volley_report(old(arena)@),
            final(self)@.wf(final(arena)@),
            keeps_guns(old(arena)@, final(arena)@),
            requests_wf(fired@.requests, final(arena)@.len()),
    {
        if !self.can_shoot_bullet() {
            proof {
                lemma_keeps_guns_refl(arena@);
            }
            return Fired::nothing();
        }
        let ghost base = arena@.len();
        let ghost bullets = self@.bullets();
        let mut fired = Fired::nothing();
        let mut i: usize = 0;
        while i < self.guns.len()
            invariant
                i <= self.guns@.len(),
                *self == *old(self),
                base == old(arena)@.len(),
                bullets == old(self)@.bullets(),
                self@.wf(old(arena)@),
                arena@ == old(arena)@ + bullet_entities(bullets.take(i as int)),
                fired@.requests == requests_for(handles_from(base, i as nat)),
                fired@.sounds == Seq::new(i as nat, |k: int| self.bullet_sound),
            decreases self.guns@.len() - i,
        {
            let handle = self.guns[i];
            let bullet = gun_at(arena, handle).shoot_bullet(handle, &self.bullet_texture);
            let slot = arena.len();
            arena.push(Entity::Bullet(bullet));
            let mut requests = self.world_requests_for_bullet(slot);
            fired.requests.append(&mut requests);
            fired.sounds.push(self.bullet_sound);
            proof {
                assert(bullets.take(i + 1) =~= bullets.take(i as int).push(bullets[i as int]));
                assert(arena@ =~= old(arena)@ + bullet_entities(bullets.take(i + 1)));
                assert(fired@.requests =~= requests_for(handles_from(base, (i + 1) as nat)));
                assert(fired@.sounds =~= Seq::new((i + 1) as nat, |k: int| self.bullet_sound));
            }
            i += 1;
        }
        proof {
            assert(bullets.take(i as int) =~= bullets);
        }
        self.has_shot_bullet = true;
        proof {
            lemma_requests_for_wf(handles_from(base, self.guns@.len()), arena@.len());
            assert(keeps_guns(old(arena)@, arena@));
            lemma_wf_kept(old(self)@, old(arena)@, arena@);
        }
        fired
    }
}

/// The gun stored under `handle`.
pub fn gun_at(arena: &Vec<Entity>, handle: usize) -> (gun: Gun)
    requires
        handle < arena@.len(),
        arena@[handle as int] is Gun,
    ensures
        arena@[handle as int] == Entity::Gun(gun),
{
    match arena[handle] {
        Entity::Gun(g) => g,
        _ => vstd::pervasive::unreached(),
    }
}

/// Every arena keeps its own guns.
pub proof fn lemma_keeps_guns_refl(arena: Seq<Entity>)
    ensures
        keeps_guns(arena, arena),
{
}

/// Keeping guns carries over two steps.
pub proof fn lemma_keeps_guns_trans(a: Seq<Entity>, b: Seq<Entity>, c: Seq<Entity>)
    requires
        keeps_guns(a, b),
        keeps_guns(b, c),
    ensures
        keeps_guns(a, c),
{
    assert forall|h: int| 0 <= h < a.len() implies (#[trigger] a[h] matches Entity::Gun(g) ==> (
    c[h] matches Entity::Gun(k) && k.depth == g.depth)) by {
        if a[h] is Gun {
            assert(b[h] is Gun);
        }
    }
}

/// What can be asked of a controller.
pub enum ConceptAction {
    /// The gun trigger.
    ShootGun,
    /// The bullet trigger.
    ShootBullets,
    /// The per-frame update.
    Update,
    /// Selecting or deselecting the weapon.
    SetSelected(bool),
}

impl MetaGunView {
    /// The controller after `action`, taken over `arena`.
    pub open spec fn after_action(self, action: ConceptAction, arena: Seq<Entity>) -> MetaGunView {
        match action {
            ConceptAction::ShootGun => self.fired(arena),
            ConceptAction::ShootBullets => self.volleyed(),
            ConceptAction::Update => self.pruned(arena),
            ConceptAction::SetSelected(selected) => self.selected(selected),
        }
    }

    /// The controller after `steps`, each an action and the arena it was
    /// taken over.
    pub open spec fn after_actions(self, steps: Seq<(ConceptAction, Seq<Entity>)>) -> MetaGunView
        decreases steps.len(),
    {
        if steps.len() == 0 {
            self
        } else {
            self.after_actions(steps.drop_last()).after_action(steps.last().0, steps.last().1)
        }
    }

    /// How many of `steps` were firing actions that succeeded.
    pub open spec fn shots_fired(self, steps: Seq<(ConceptAction, Seq<Entity>)>) -> nat
        decreases steps.len(),
    {
        if steps.len() == 0 {
            0
        } else {
            let before = self.after_actions(steps.drop_last());
            let earlier = self.shots_fired(steps.drop_last());
            if steps.last().0 is ShootGun && before.can_shoot_gun() {
                earlier + 1
            } else {
                earlier
            }
        }
    }
}

/// A weapon with a depth limit of `D` fires at most `D` times in a level
/// attempt: whatever is asked of a controller that has taken no more than
/// `D` shots, the firing actions that succeed are no more than the shots it
/// had left, every one of them is counted, and the count never passes `D`.
pub proof fn lemma_depth_limits_firing(
    concept: MetaGunView,
    steps: Seq<(ConceptAction, Seq<Entity>)>,
)
    requires
        depth_limited(concept.kind()),
        concept.shots_taken <= depth_limit(concept.kind()),
    ensures
        concept.after_actions(steps).kind() == concept.kind(),
        concept.after_actions(steps).shots_taken == concept.shots_taken + concept.shots_fired(steps),
        concept.after_actions(steps).shots_taken <= depth_limit(concept.kind()),
        concept.shots_fired(steps) <= depth_limit(concept.kind()) - concept.shots_taken,
    decreases steps.len(),
{
    if steps.len() > 0 {
        lemma_depth_limits_firing(concept, steps.drop_last());
    }
}

/// Once a weapon cannot throw a gun, it never can again in the same level
/// attempt, whatever is asked of its controller.
pub proof fn lemma_exhausted_for_good(
    concept: MetaGunView,
    steps: Seq<(ConceptAction, Seq<Entity>)>,
)
    requires
        !concept.can_shoot_gun(),
    ensures
        !concept.after_actions(steps).can_shoot_gun(),
        concept.after_actions(steps).shots_taken == concept.shots_taken,
        concept.shots_fired(steps) == 0,
    decreases steps.len(),
{
    if steps.len() > 0 {
        lemma_exhausted_for_good(concept, steps.drop_last());
        let before = concept.after_actions(steps.drop_last());
        assert(before.kind() == concept.kind()) by {
            lemma_kind_is_kept(concept, steps.drop_last());
        }
        if concept.has_shot_bullet {
            lemma_volley_latches(concept, steps.drop_last());
        }
    }
}

/// No action changes the kind of a weapon.
pub proof fn lemma_kind_is_kept(concept: MetaGunView, steps: Seq<(ConceptAction, Seq<Entity>)>)
    ensures
        concept.after_actions(steps).kind() == concept.kind(),
    decreases steps.len(),
{
    if steps.len() > 0 {
        lemma_kind_is_kept(concept, steps.drop_last());
    }
}

/// The volley latches: once it was fired, it stays fired whatever is asked
/// of the controller.
pub proof fn lemma_volley_latches(concept: MetaGunView, steps: Seq<(ConceptAction, Seq<Entity>)>)
    requires
        concept.has_shot_bullet,
    ensures
        concept.after_actions(steps).has_shot_bullet,
    decreases steps.len(),
{
    if steps.len() > 0 {
        lemma_volley_latches(concept, steps.drop_last());
    }
}

/// Once the volley was fired, both triggers are without effect: the
/// controller and the arena stay as they are, nothing is requested and no
/// sound is due. This holds after whatever else was asked of the controller
/// in between.
pub proof fn lemma_triggers_idle_after_volley(
    concept: MetaGunView,
    steps: Seq<(ConceptAction, Seq<Entity>)>,
    arena: Seq<Entity>,
)
    requires
        concept.has_shot_bullet,
    ensures
        ({
            let later = concept.after_actions(steps);
            &&& later.volleyed() == later
            &&& later.arena_after_volley(arena) == arena
            &&& later.volley_report(arena) == FiredView::nothing()
            &&& later.fired(arena) == later
            &&& later.arena_after_fire(arena) == arena
            &&& later.fire_report(arena) == FiredView::nothing()
        }),
{
    lemma_volley_latches(concept, steps);
}

/// A volley that is possible latches, yields one bullet per gun of the
/// chain, and asks for the bullet sound as often.
pub proof fn lemma_volley_counts(concept: MetaGunView, arena: Seq<Entity>)
    requires
        concept.can_shoot_bullet(),
    ensures
        concept.volleyed().has_shot_bullet,
        concept.arena_after_volley(arena).len() == arena.len() + concept.guns.len(),
        concept.volley_report(arena).requests.len() == 2 * concept.guns.len(),
        concept.volley_report(arena).sounds.len() == concept.guns.len(),
{
}

} // verus!
