//! The player: the weapons it carries and what the input makes them do.

use vstd::prelude::*;
use crate::entity::Entity;
use crate::game_object::GameObject;
use crate::geometry::{GridPoint, Ratio};
use crate::input::{Button, ButtonMap, ButtonState, Key, MouseButton};
use crate::meta_gun::{
    keeps_guns, lemma_keeps_guns_refl, lemma_keeps_guns_trans, lemma_wf_kept, MetaGun, MetaGunView,
};
use crate::object_type::ObjectType;
use crate::renderable::Renderable;
use crate::renderable_object::RenderableObject;
use crate::world_req::{requests_wf, Fired, FiredView};

verus! {

#[derive(Debug)]
pub struct Player {
    pub position: GridPoint,
    pub scale: Ratio,
    pub renderable_object: RenderableObject,
    pub selected_renderable_object: RenderableObject,
    pub gun_concepts: Vec<MetaGun>,
    pub current_gun_concept_index: usize,
    pub is_visible: bool,
}

/// The player with its weapons as a sequence of controller views.
pub struct PlayerView {
    pub position: GridPoint,
    pub scale: Ratio,
    pub renderable_object: RenderableObject,
    pub selected_renderable_object: RenderableObject,
    pub gun_concepts: Seq<MetaGunView>,
    pub current_gun_concept_index: usize,
    pub is_visible: bool,
}

impl View for Player {
    type V = PlayerView;

    open spec fn view(&self) -> PlayerView {
        PlayerView {
            position: self.position,
            scale: self.scale,
            renderable_object: self.renderable_object,
            selected_renderable_object: self.selected_renderable_object,
            gun_concepts: self.gun_concepts@.map_values(|c: MetaGun| c@),
            current_gun_concept_index: self.current_gun_concept_index,
            is_visible: self.is_visible,
        }
    }
}

impl PlayerView {
    /// Whether the player carries a weapon, the current index names one, and
    /// every controller is well-formed over `arena`.
    pub open spec fn wf(self, arena: Seq<Entity>) -> bool {
        &&& self.gun_concepts.len() > 0
        &&& self.current_gun_concept_index < self.gun_concepts.len()
        &&& forall|i: int| 0 <= i < self.gun_concepts.len() ==> (#[trigger] self.gun_concepts[i]).wf(arena)
    }

    /// Whether any weapon can fire a volley.
    pub open spec fn can_shoot_bullet(self) -> bool {
        exists|i: int| 0 <= i < self.gun_concepts.len() && (#[trigger] self.gun_concepts[i]).can_shoot_bullet()
    }

    /// Whether any weapon can throw a gun.
    pub open spec fn can_shoot_gun(self) -> bool {
        exists|i: int| 0 <= i < self.gun_concepts.len() && (#[trigger] self.gun_concepts[i]).can_shoot_gun()
    }

    /// The controller of the current weapon.
    pub open spec fn current(self) -> MetaGunView {
        self.gun_concepts[self.current_gun_concept_index as int]
    }

    /// The player with the current controller replaced by `concept`.
    pub open spec fn with_current(self, concept: MetaGunView) -> PlayerView {
        PlayerView {
            gun_concepts: self.gun_concepts.update(self.current_gun_concept_index as int, concept),
            ..self
        }
    }

    /// The player with the weapon under `index` as the current one.
    pub open spec fn with_index(self, index: usize) -> PlayerView {
        PlayerView { current_gun_concept_index: index, ..self }
    }

    /// The index of the weapon after the current one, the first following the
    /// last.
    pub open spec fn next_index(self) -> usize {
        ((self.current_gun_concept_index + 1) % (self.gun_concepts.len() as int)) as usize
    }

    /// The index of the weapon before the current one, the last preceding the
    /// first.
    pub open spec fn previous_index(self) -> usize {
        if self.current_gun_concept_index == 0 {
            (self.gun_concepts.len() - 1) as usize
        } else {
            (self.current_gun_concept_index - 1) as usize
        }
    }
}

/// The player, the arena it acts on, and what its actions brought about so
/// far in this frame.
pub struct Scene {
    pub player: PlayerView,
    pub arena: Seq<Entity>,
    pub fired: FiredView,
}

impl Scene {
    pub open spec fn wf(self) -> bool {
        self.player.wf(self.arena)
    }

    /// The gun trigger went down: the current weapon fires.
    pub open spec fn gun_trigger_pressed(self) -> Scene {
        let concept = self.player.current();
        Scene {
            player: self.player.with_current(concept.fired(self.arena)),
            arena: concept.arena_after_fire(self.arena),
            fired: self.fired.followed_by(concept.fire_report(self.arena)),
        }
    }

    /// The gun trigger is being held: nothing happens.
    pub open spec fn gun_trigger_held(self) -> Scene {
        self
    }

    /// The bullet trigger went down: the current weapon fires its volley.
    pub open spec fn bullet_trigger_pressed(self) -> Scene {
        let concept = self.player.current();
        Scene {
            player: self.player.with_current(concept.volleyed()),
            arena: concept.arena_after_volley(self.arena),
            fired: self.fired.followed_by(concept.volley_report(self.arena)),
        }
    }

    /// The current weapon is deselected and the one under `index` selected in
    /// its place.
    pub open spec fn switched_to(self, index: usize) -> Scene {
        let old_concept = self.player.current();
        let dimmed = Scene {
            player: self.player.with_current(old_concept.selected(false)),
            arena: old_concept.arena_after_select(self.arena, false),
            fired: self.fired,
        };
        let turned = Scene { player: dimmed.player.with_index(index), ..dimmed };
        let new_concept = turned.player.current();
        Scene {
            player: turned.player.with_current(new_concept.selected(true)),
            arena: new_concept.arena_after_select(turned.arena, true),
            fired: turned.fired,
        }
    }

    /// The scene after one entry of the mouse map: a press of the left button
    /// pulls the gun trigger, a press of the right button the bullet trigger.
    pub open spec fn after_mouse_entry(self, entry: (Button, ButtonState)) -> Scene {
        match entry.0 {
            Button::Mouse(MouseButton::Left) => {
                let shot = if entry.1.pressed {
                    self.gun_trigger_pressed()
                } else {
                    self
                };
                if entry.1.held {
                    shot.gun_trigger_held()
                } else {
                    shot
                }
            },
            Button::Mouse(MouseButton::Right) => {
                if entry.1.pressed {
                    self.bullet_trigger_pressed()
                } else {
                    self
                }
            },
            _ => self,
        }
    }

    /// The scene after one entry of the key map: a press of Q selects the
    /// next weapon, a press of E the previous one.
    pub open spec fn after_key_entry(self, entry: (Button, ButtonState)) -> Scene {
        match entry.0 {
            Button::Keyboard(Key::Q) => {
                if entry.1.pressed {
                    self.switched_to(self.player.next_index())
                } else {
                    self
                }
            },
            Button::Keyboard(Key::E) => {
                if entry.1.pressed {
                    self.switched_to(self.player.previous_index())
                } else {
                    self
                }
            },
            _ => self,
        }
    }

    /// The scene after the entries of the mouse map, taken in order.
    pub open spec fn after_mouse_entries(self, entries: Seq<(Button, ButtonState)>) -> Scene
        decreases entries.len(),
    {
        if entries.len() == 0 {
            self
        } else {
            self.after_mouse_entries(entries.drop_last()).after_mouse_entry(entries.last())
        }
    }

    /// The scene after the entries of the key map, taken in order.
    pub open spec fn after_key_entries(self, entries: Seq<(Button, ButtonState)>) -> Scene
        decreases entries.len(),
    {
        if entries.len() == 0 {
            self
        } else {
            self.after_key_entries(entries.drop_last()).after_key_entry(entries.last())
        }
    }

    /// The scene after the input was applied: the mouse map first, then the
    /// key map.
    pub open spec fn after_input(
        self,
        mouse_states: Seq<(Button, ButtonState)>,
        key_states: Seq<(Button, ButtonState)>,
    ) -> Scene {
        self.after_mouse_entries(mouse_states).after_key_entries(key_states)
    }

    /// The current weapon has dropped the guns marked for deletion.
    pub open spec fn pruned(self) -> Scene {
        let concept = self.player.current();
        Scene {
            player: self.player.with_current(concept.pruned(self.arena)),
            arena: concept.arena_after_prune(self.arena),
            fired: self.fired,
        }
    }

    /// The scene after the player's step of a frame: the current weapon
    /// prunes its chain, then the input is applied.
    pub open spec fn after_update(
        self,
        mouse_states: Seq<(Button, ButtonState)>,
        key_states: Seq<(Button, ButtonState)>,
    ) -> Scene {
        self.pruned().after_input(mouse_states, key_states)
    }
}

impl GameObject for Player {
    open spec fn marked(&self) -> bool {
        false
    }

    open spec fn kind(&self) -> ObjectType {
        ObjectType::Player
    }

    open spec fn deletable(&self) -> bool {
        false
    }

    open spec fn scale_factor(&self) -> Ratio {
        self.scale
    }

    fn get_scale(&self) -> (r: Ratio) {
        self.scale
    }

    fn get_should_delete(&self) -> (r: bool) {
        false
    }

    /// Does nothing: the player always survives.
    #[allow(unused_variables)]
    fn set_should_delete(&mut self, should_delete: bool)
        ensures
            *final(self) == *old(self),
    {
    }

    fn get_object_type(&self) -> (r: ObjectType) {
        ObjectType::Player
    }
}

impl Renderable for Player {
    /// The plain look while the current weapon has guns in flight, the
    /// highlighted one while it has none.
    open spec fn appearance(&self) -> RenderableObject {
        if self.current_gun_concept_index < self.gun_concepts@.len()
            && self.gun_concepts@[self.current_gun_concept_index as int]@.has_guns_in_play() {
            self.renderable_object
        } else {
            self.selected_renderable_object
        }
    }

    open spec fn visible(&self) -> bool {
        self.is_visible
    }

    fn get_renderable_object(&self) -> (r: RenderableObject) {
        if self.current_gun_concept_index < self.gun_concepts.len()
            && self.gun_concepts[self.current_gun_concept_index].has_guns_in_play() {
            self.renderable_object
        } else {
            self.selected_renderable_object
        }
    }

    fn is_visible(&self) -> (r: bool) {
        self.is_visible
    }
}

/// Replacing the current controller by one that is well-formed over an arena
/// that keeps its guns leaves the player well-formed.
pub proof fn lemma_with_current_wf(
    player: PlayerView,
    before: Seq<Entity>,
    concept: MetaGunView,
    after: Seq<Entity>,
)
    requires
        player.wf(before),
        concept.wf(after),
        keeps_guns(before, after),
    ensures
        player.with_current(concept).wf(after),
{
    let next = player.with_current(concept);
    assert forall|i: int| 0 <= i < next.gun_concepts.len() implies (#[trigger] next.gun_concepts[i]).wf(
        after,
    ) by {
        if i != player.current_gun_concept_index {
            lemma_wf_kept(player.gun_concepts[i], before, after);
        }
    }
}

impl Player {
    /// A player standing at `position` with `gun_concepts` as its weapons,
    /// the first of them current.
    pub fn new(
        position: GridPoint,
        scale: Ratio,
        renderable_object: RenderableObject,
        selected_renderable_object: RenderableObject,
        gun_concepts: Vec<MetaGun>,
    ) -> (r: Player)
        ensures
            r.position == position,
            r.scale == scale,
            r.renderable_object == renderable_object,
            r.selected_renderable_object == selected_renderable_object,
            r.gun_concepts == gun_concepts,
            r.current_gun_concept_index == 0,
            r.is_visible,
    {
        Player {
            position,
            scale,
            renderable_object,
            selected_renderable_object,
            gun_concepts,
            current_gun_concept_index: 0,
            is_visible: true,
        }
    }

    fn gun_trigger_pressed(&mut self, arena: &mut Vec<Entity>) -> (fired: Fired)
        requires
            old(self)@.wf(old(arena)@),
        ensures
            final(self)@ == old(self)@.with_current(old(self)@.current().fired(old(arena)@)),
            final(arena)@ == old(self)@.current().arena_after_fire(old(arena)@),
            fired@ == old(self)@.current().fire_report(old(arena)@),
            final(self)@.wf(final(arena)@),
            keeps_guns(old(arena)@, final(arena)@),
            requests_wf(fired@.requests, final(arena)@.len()),
    {
        let index = self.current_gun_concept_index;
        assert(self@.gun_concepts[index as int] == self.gun_concepts@[index as int]@);
        assert(self@.gun_concepts[index as int].wf(arena@));
        let fired = self.gun_concepts[index].shoot_gun(arena);
        proof {
            assert(self@.gun_concepts =~= old(self)@.gun_concepts.update(
                index as int,
                self.gun_concepts@[index as int]@,
            ));
            lemma_with_current_wf(old(self)@, old(arena)@, self.gun_concepts@[index as int]@, arena@);
        }
        fired
    }

    #[allow(unused_variables)]
    fn gun_trigger_held(&mut self, arena: &mut Vec<Entity>) -> (fired: Fired)
        ensures
            *final(self) == *old(self),
            final(arena)@ == old(arena)@,
            fired@ == FiredView::nothing(),
    {
        Fired::nothing()
    }

    fn bullet_trigger_pressed(&mut self, arena: &mut Vec<Entity>) -> (fired: Fired)
        requires
            old(self)@.wf(old(arena)@),
        ensures
            final(self)@ == old(self)@.with_current(old(self)@.current().volleyed()),
            final(arena)@ == old(self)@.current().arena_after_volley(old(arena)@),
            fired@ == old(self)@.current().volley_report(old(arena)@),
            final(self)@.wf(final(arena)@),
            keeps_guns(old(arena)@, final(arena)@),
            requests_wf(fired@.requests, final(arena)@.len()),
    {
        let index = self.current_gun_concept_index;
        assert(self@.gun_concepts[index as int] == self.gun_concepts@[index as int]@);
        assert(self@.gun_concepts[index as int].wf(arena@));
        let fired = self.gun_concepts[index].shoot_bullets(arena);
        proof {
            assert(self@.gun_concepts =~= old(self)@.gun_concepts.update(
                index as int,
                self.gun_concepts@[index as int]@,
            ));
            lemma_with_current_wf(old(self)@, old(arena)@, self.gun_concepts@[index as int]@, arena@);
        }
        fired
    }

    /// Whether the player is well-formed over `arena`.
    pub fn is_valid(&self, arena: &Vec<Entity>) -> (r: bool)
        ensures
            r == self@.wf(arena@),
    {
        if self.gun_concepts.len() == 0 || self.current_gun_concept_index >= self.gun_concepts.len() {
            return false;
        }
        let mut i: usize = 0;
        while i < self.gun_concepts.len()
            invariant
                i <= self.gun_concepts@.len(),
                forall|k: int| 0 <= k < i ==> (#[trigger] self@.gun_concepts[k]).wf(arena@),
            decreases self.gun_concepts@.len() - i,
        {
            if !self.gun_concepts[i].is_valid(arena) {
                assert(!self@.gun_concepts[i as int].wf(arena@));
                return false;
            }
            assert(self@.gun_concepts[i as int].wf(arena@));
            i += 1;
        }
        true
    }

    /// Whether any weapon can fire a volley.
    pub fn can_shoot_bullet(&self) -> (r: bool)
        ensures
            r == self@.can_shoot_bullet(),
    {
        let mut i: usize = 0;
        while i < self.gun_concepts.len()
            invariant
                i <= self.gun_concepts@.len(),
                forall|j: int| 0 <= j < i ==> !(#[trigger] self@.gun_concepts[j]).can_shoot_bullet(),
            decreases self.gun_concepts@.len() - i,
        {
            if self.gun_concepts[i].can_shoot_bullet() {
                assert(self@.gun_concepts[i as int].can_shoot_bullet());
                return true;
            }
            i += 1;
        }
        false
    }

    /// Whether any weapon can throw a gun.
    pub fn can_shoot_gun(&self) -> (r: bool)
        ensures
            r == self@.can_shoot_gun(),
    {
        let mut i: usize = 0;
        while i < self.gun_concepts.len()
            invariant
                i <= self.gun_concepts@.len(),
                forall|j: int| 0 <= j < i ==> !(#[trigger] self@.gun_concepts[j]).can_shoot_gun(),
            decreases self.gun_concepts@.len() - i,
        {
            if self.gun_concepts[i].can_shoot_gun() {
                assert(self@.gun_concepts[i as int].can_shoot_gun());
                return true;
            }
            i += 1;
        }
        false
    }

    /// Deselects the current weapon and selects the one under `index`.
    fn switch_to(&mut self, arena: &mut Vec<Entity>, index: usize)
        requires
            old(self)@.wf(old(arena)@),
            index < old(self)@.gun_concepts.len(),
        ensures
            (Scene { player: final(self)@, arena: final(arena)@, fired: FiredView::nothing() }) == (Scene {
                player: old(self)@,
                arena: old(arena)@,
                fired: FiredView::nothing(),
            }).switched_to(index),
            final(self)@.wf(final(arena)@),
            keeps_guns(old(arena)@, final(arena)@),
    {
        let current = self.current_gun_concept_index;
        assert(self@.gun_concepts[current as int] == self.gun_concepts@[current as int]@);
        self.gun_concepts[current].set_selected(arena, false);
        let ghost dimmed_player = self@;
        let ghost dimmed_arena = arena@;
        proof {
            assert(self@.gun_concepts =~= old(self)@.gun_concepts.update(
                current as int,
                old(self)@.current().selected(false),
            ));
            lemma_with_current_wf(
                old(self)@,
                old(arena)@,
                old(self)@.current().selected(false),
                arena@,
            );
        }
        self.current_gun_concept_index = index;
        let ghost turned = self@;
        assert(self@.gun_concepts[index as int] == self.gun_concepts@[index as int]@);
        self.gun_concepts[index].set_selected(arena, true);
        proof {
            assert(self@.gun_concepts =~= turned.gun_concepts.update(
                index as int,
                turned.current().selected(true),
            ));
            lemma_with_current_wf(turned, dimmed_arena, turned.current().selected(true), arena@);
            lemma_keeps_guns_trans(old(arena)@, dimmed_arena, arena@);
        }
    }

    /// Applies the input of a frame, adding what it brings about to
    /// `world_reqs`: every entry of the mouse map in order, then every entry
    /// of the key map in order.
    pub fn apply_input_into(
        &mut self,
        arena: &mut Vec<Entity>,
        key_states: &ButtonMap,
        mouse_states: &ButtonMap,
        world_reqs: &mut Fired,
    )
        requires
            old(self)@.wf(old(arena)@),
            requests_wf(old(world_reqs)@.requests, old(arena)@.len()),
        ensures
            (Scene { player: final(self)@, arena: final(arena)@, fired: final(world_reqs)@ }) == (Scene {
                player: old(self)@,
                arena: old(arena)@,
                fired: old(world_reqs)@,
            }).after_input(mouse_states@, key_states@),
            final(self)@.wf(final(arena)@),
            keeps_guns(old(arena)@, final(arena)@),
            requests_wf(final(world_reqs)@.requests, final(arena)@.len()),
    {
        let ghost start = Scene { player: self@, arena: arena@, fired: world_reqs@ };
        proof {
            lemma_keeps_guns_refl(arena@);
        }
        let mut i: usize = 0;
        while i < mouse_states.entries.len()
            invariant
                i <= mouse_states@.len(),
                self@.wf(arena@),
                keeps_guns(old(arena)@, arena@),
                requests_wf(world_reqs@.requests, arena@.len()),
                (Scene { player: self@, arena: arena@, fired: world_reqs@ })
                    == start.after_mouse_entries(mouse_states@.take(i as int)),
            decreases mouse_states@.len() - i,
        {
            let ghost before = Scene { player: self@, arena: arena@, fired: world_reqs@ };
            let (button, value) = mouse_states.entries[i];
            proof {
                assert(mouse_states@.take(i + 1).drop_last() =~= mouse_states@.take(i as int));
                assert(mouse_states@.take(i + 1).last() == (button, value));
            }
            match button {
                Button::Mouse(MouseButton::Left) => {
                    if value.pressed {
                        let shot = self.gun_trigger_pressed(arena);
                        world_reqs.absorb(shot);
                        proof {
                            lemma_keeps_guns_trans(old(arena)@, before.arena, arena@);
                        }
                    }
                    if value.held {
                        self.gun_trigger_held(arena);
                    }
                },
                Button::Mouse(MouseButton::Right) => {
                    if value.pressed {
                        let shot = self.bullet_trigger_pressed(arena);
                        world_reqs.absorb(shot);
                        proof {
                            lemma_keeps_guns_trans(old(arena)@, before.arena, arena@);
                        }
                    }
                },
                _ => {},
            }
            i += 1;
        }
        proof {
            assert(mouse_states@.take(i as int) =~= mouse_states@);
        }
        let ghost middle = start.after_mouse_entries(mouse_states@);
        let mut k: usize = 0;
        while k < key_states.entries.len()
            invariant
                k <= key_states@.len(),
                self@.wf(arena@),
                keeps_guns(old(arena)@, arena@),
                requests_wf(world_reqs@.requests, arena@.len()),
                (Scene { player: self@, arena: arena@, fired: world_reqs@ })
                    == middle.after_key_entries(key_states@.take(k as int)),
            decreases key_states@.len() - k,
        {
            let ghost before = Scene { player: self@, arena: arena@, fired: world_reqs@ };
            let (button, value) = key_states.entries[k];
            proof {
                assert(key_states@.take(k + 1).drop_last() =~= key_states@.take(k as int));
                assert(key_states@.take(k + 1).last() == (button, value));
            }
            match button {
                Button::Keyboard(Key::Q) => {
                    if value.pressed {
                        let count = self.gun_concepts.len();
                        let next = (self.current_gun_concept_index + 1) % count;
                        self.switch_to(arena, next);
                        proof {
                            lemma_keeps_guns_trans(old(arena)@, before.arena, arena@);
                        }
                    }
                },
                Button::Keyboard(Key::E) => {
                    if value.pressed {
                        let previous = if self.current_gun_concept_index == 0 {
                            self.gun_concepts.len() - 1
                        } else {
                            self.current_gun_concept_index - 1
                        };
                        self.switch_to(arena, previous);
                        proof {
                            lemma_keeps_guns_trans(old(arena)@, before.arena, arena@);
                        }
                    }
                },
                _ => {},
            }
            k += 1;
        }
        proof {
            assert(key_states@.take(k as int) =~= key_states@);
        }
    }

    /// Applies the input of a frame and returns what it brought about.
    pub fn apply_input(
        &mut self,
        arena: &mut Vec<Entity>,
        key_states: &ButtonMap,
        mouse_states: &ButtonMap,
    ) -> (fired: Fired)
        requires
            old(self)@.wf(old(arena)@),
        ensures
            (Scene { player: final(self)@, arena: final(arena)@, fired: fired@ }) == (Scene {
                player: old(self)@,
                arena: old(arena)@,
                fired: FiredView::nothing(),
            }).after_input(mouse_states@, key_states@),
            final(self)@.wf(final(arena)@),
            keeps_guns(old(arena)@, final(arena)@),
            requests_wf(fired@.requests, final(arena)@.len()),
    {
        let mut world_reqs = Fired::nothing();
        self.apply_input_into(arena, key_states, mouse_states, &mut world_reqs);
        world_reqs
    }

    /// The player's step of a frame, adding what it brings about to
    /// `world_reqs`: the current weapon drops the guns that are marked for
    /// deletion, then the input is applied.
    pub fn update_into(
        &mut self,
        arena: &mut Vec<Entity>,
        key_states: &ButtonMap,
        mouse_states: &ButtonMap,
        world_reqs: &mut Fired,
    )
        requires
            old(self)@.wf(old(arena)@),
            requests_wf(old(world_reqs)@.requests, old(arena)@.len()),
        ensures
            (Scene { player: final(self)@, arena: final(arena)@, fired: final(world_reqs)@ }) == (Scene {
                player: old(self)@,
                arena: old(arena)@,
                fired: old(world_reqs)@,
            }).after_update(mouse_states@, key_states@),
            final(self)@.wf(final(arena)@),
            keeps_guns(old(arena)@, final(arena)@),
            requests_wf(final(world_reqs)@.requests, final(arena)@.len()),
    {
        let index = self.current_gun_concept_index;
        assert(self@.gun_concepts[index as int] == self.gun_concepts@[index as int]@);
        assert(self@.gun_concepts[index as int].wf(arena@));
        self.gun_concepts[index].update(arena);
        let ghost pruned_arena = arena@;
        proof {
            assert(self@.gun_concepts =~= old(self)@.gun_concepts.update(
                index as int,
                self.gun_concepts@[index as int]@,
            ));
            lemma_with_current_wf(old(self)@, old(arena)@, self.gun_concepts@[index as int]@, arena@);
        }
        self.apply_input_into(arena, key_states, mouse_states, world_reqs);
        proof {
            lemma_keeps_guns_trans(old(arena)@, pruned_arena, arena@);
        }
    }
}

} // verus!
