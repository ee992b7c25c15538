//! The world of one level attempt and its frame.
//!
//! A frame first looks for the end of the level: victory when no enemy is
//! left, defeat when nothing can be fired and nothing that could still kill
//! is in flight. Else it resolves the collisions the host reported, sweeps
//! out what they deleted, steps what is left, and registers what the steps
//! spawned.

use vstd::prelude::*;
use crate::entity::{lemma_mark_properties, Entity};
use crate::collidable::deleted_by;
use crate::fps_counter::FpsCounter;
use crate::game_state::{
    update_result_fail, update_result_running, update_result_success, FrameInput, GameState,
    GameStateType, UpdateResult,
};
use crate::game_state_utils::{did_click, pressed_now};
use crate::input::{Button, ButtonMap, ButtonState, MouseButton};
use crate::handles::{
    all_below, contains_handle, in_range, kept, lemma_kept_members, live, retain_live,
};
use crate::meta_gun::{keeps_guns, lemma_keeps_guns_refl, lemma_keeps_guns_trans};
use crate::object_type::ObjectType;
use crate::player::{Player, PlayerView, Scene};
use crate::world_req::{requests_wf, Fired, FiredView, WorldReq, WorldRequestType};

verus! {

/// The layer in which ground and walls are drawn.
pub const GROUND_LAYER: usize = 0;

/// The layer in which walls are drawn.
pub const WALL_LAYER: usize = 0;

/// The layer in which enemies are drawn.
pub const ENEMY_LAYER: usize = 1;

/// The layer in which the player is drawn.
pub const PLAYER_LAYER: usize = 1;

/// The layer in which thrown guns and bullets are drawn.
pub const PROJECTILE_LAYER: usize = 2;

#[derive(Copy, Clone, PartialEq, Eq, Structural, Debug)]
pub struct GameEndedState {
    pub game_ended: bool,
    pub won: bool,
}

/// The line shown over a level that was won.
pub const SUCCESS_TEXT: &'static str = "Success! Click to continue.";

/// The line shown over a level that was lost.
pub const DEFEAT_TEXT: &'static str = "Defeat! Click to retry.";

/// What the middle of the screen shows over a level.
#[derive(Copy, Clone, PartialEq, Eq, Structural, Debug)]
pub enum Overlay {
    /// [`SUCCESS_TEXT`].
    Won,
    /// [`DEFEAT_TEXT`].
    Lost,
    /// The name of the level.
    LevelName,
    Nothing,
}

/// Two collidables whose bounding boxes the host found to overlap.
#[derive(Copy, Clone, PartialEq, Eq, Structural, Debug)]
pub struct Contact {
    pub first: usize,
    pub second: usize,
}

/// What a frame asks of the host.
#[derive(Debug)]
pub struct Frame {
    /// What the screen reports.
    pub result: UpdateResult,
    /// The entities that were stepped, in order: the host moves each by the
    /// time that has passed.
    pub stepped: Vec<usize>,
    /// The requests that were registered: the host gives each new entity its
    /// pose.
    pub requests: Vec<WorldReq>,
    /// The sounds to play, in order.
    pub sounds: Vec<usize>,
}

pub struct FrameView {
    pub result: UpdateResult,
    pub stepped: Seq<usize>,
    pub requests: Seq<WorldReq>,
    pub sounds: Seq<usize>,
}

impl View for Frame {
    type V = FrameView;

    open spec fn view(&self) -> FrameView {
        FrameView {
            result: self.result,
            stepped: self.stepped@,
            requests: self.requests@,
            sounds: self.sounds@,
        }
    }
}

impl FrameView {
    /// A frame in which nothing was stepped, spawned or played.
    pub open spec fn quiet(result: UpdateResult) -> FrameView {
        FrameView { result, stepped: Seq::empty(), requests: Seq::empty(), sounds: Seq::empty() }
    }
}

impl Frame {
    /// A frame in which nothing was stepped, spawned or played.
    pub fn quiet(result: UpdateResult) -> (r: Frame)
        ensures
            r@ == FrameView::quiet(result),
    {
        Frame { result, stepped: Vec::new(), requests: Vec::new(), sounds: Vec::new() }
    }
}

#[derive(Debug)]
pub struct World {
    /// The arena: every entity of the level under its handle. Slots are
    /// never reused.
    pub entities: Vec<Entity>,
    /// The handles to draw, layer by layer, lowest layer first.
    pub renderables: Vec<Vec<usize>>,
    pub collidables: Vec<usize>,
    pub updatables: Vec<usize>,
    pub game_ended_state: GameEndedState,
    pub player: Player,
    /// The handle of the player's slot in the arena.
    pub player_handle: usize,
    pub should_display_level_name: bool,
    pub name: String,
    pub fps_counter: FpsCounter,
}

/// The world with its lists as sequences.
pub struct WorldView {
    pub entities: Seq<Entity>,
    pub renderables: Seq<Seq<usize>>,
    pub collidables: Seq<usize>,
    pub updatables: Seq<usize>,
    pub game_ended_state: GameEndedState,
    pub player: PlayerView,
    pub player_handle: usize,
    pub should_display_level_name: bool,
    pub name: Seq<char>,
    pub fps_counter: FpsCounter,
}

impl View for World {
    type V = WorldView;

    open spec fn view(&self) -> WorldView {
        WorldView {
            entities: self.entities@,
            renderables: self.renderables@.map_values(|layer: Vec<usize>| layer@),
            collidables: self.collidables@,
            updatables: self.updatables@,
            game_ended_state: self.game_ended_state,
            player: self.player@,
            player_handle: self.player_handle,
            should_display_level_name: self.should_display_level_name,
            name: self.name@,
            fps_counter: self.fps_counter,
        }
    }
}

/// `renderables` with `handle` added to the layer `layer`; layers that are
/// missing up to `layer` are added empty.
pub open spec fn layered(renderables: Seq<Seq<usize>>, handle: usize, layer: int) -> Seq<
    Seq<usize>,
> {
    let padded = if renderables.len() <= layer {
        renderables + Seq::new(
            (layer + 1 - renderables.len()) as nat,
            |i: int| Seq::<usize>::empty(),
        )
    } else {
        renderables
    };
    padded.update(layer, padded[layer].push(handle))
}

impl WorldView {
    /// Whether every list refers to slots of the arena only, the player is
    /// well-formed over the arena, and the end state is one the frame knows:
    /// a level is not won before it has ended.
    pub open spec fn wf(self) -> bool {
        &&& self.player.wf(self.entities)
        &&& forall|l: int|
            0 <= l < self.renderables.len() ==> in_range(
                #[trigger] self.renderables[l],
                self.entities.len(),
            )
        &&& in_range(self.collidables, self.entities.len())
        &&& in_range(self.updatables, self.entities.len())
        &&& self.player_handle < self.entities.len()
        &&& (self.game_ended_state.won ==> self.game_ended_state.game_ended)
    }

    /// What the middle of the screen shows: the outcome once the level has
    /// ended, the level's name during its first second, nothing after that.
    pub open spec fn overlay(self) -> Overlay {
        if self.game_ended_state.game_ended {
            if self.game_ended_state.won {
                Overlay::Won
            } else {
                Overlay::Lost
            }
        } else if self.should_display_level_name {
            Overlay::LevelName
        } else {
            Overlay::Nothing
        }
    }

    /// The kind of the entity under `handle`.
    pub open spec fn kind_of(self, handle: usize) -> ObjectType {
        self.entities[handle as int].kind()
    }

    /// No entity of the enemy layer is an enemy.
    pub open spec fn is_victorious(self) -> bool {
        self.renderables.len() > ENEMY_LAYER ==> forall|i: int|
            0 <= i < self.renderables[ENEMY_LAYER as int].len() ==> self.kind_of(
                #[trigger] self.renderables[ENEMY_LAYER as int][i],
            ) != ObjectType::Enemy
    }

    /// Some weapon can throw a gun or fire its volley.
    pub open spec fn can_take_action(self) -> bool {
        self.player.can_shoot_gun() || self.player.can_shoot_bullet()
    }

    /// Whether the entity under `handle` can still kill an enemy by itself:
    /// it is a bullet or an axe.
    pub open spec fn still_lethal(self, handle: usize) -> bool {
        self.kind_of(handle) == ObjectType::Bullet || self.kind_of(handle) == ObjectType::GunAxe
    }

    /// Whether some drawn entity of the layer `layer` can still kill.
    pub open spec fn layer_lethal(self, layer: int) -> bool {
        exists|i: int|
            0 <= i < self.renderables[layer].len() && self.still_lethal(
                #[trigger] self.renderables[layer][i],
            )
    }

    /// Whether some drawn entity can still kill.
    pub open spec fn anything_lethal(self) -> bool {
        exists|l: int| 0 <= l < self.renderables.len() && #[trigger] self.layer_lethal(l)
    }

    /// No weapon can act and nothing drawn can still kill.
    pub open spec fn was_defeated(self) -> bool {
        !self.can_take_action() && !self.anything_lethal()
    }
}

impl WorldView {
    /// Whether `contact` counts: it names two different collidables.
    pub open spec fn valid_contact(self, contact: Contact) -> bool {
        &&& contact.first != contact.second
        &&& self.collidables.contains(contact.first)
        &&& self.collidables.contains(contact.second)
    }

    /// Whether `contact` deletes the entity under `handle`: the entity is one
    /// side of the contact, and the kind of the other side deletes its kind.
    pub open spec fn struck_by(self, contact: Contact, handle: usize) -> bool {
        &&& self.valid_contact(contact)
        &&& {
            ||| (contact.first == handle && deleted_by(
                self.kind_of(handle),
                self.kind_of(contact.second),
            ))
            ||| (contact.second == handle && deleted_by(
                self.kind_of(handle),
                self.kind_of(contact.first),
            ))
        }
    }

    /// Whether one of the first `count` contacts deletes the entity under
    /// `handle`.
    pub open spec fn struck_within(self, contacts: Seq<Contact>, count: int, handle: usize) -> bool {
        exists|j: int| 0 <= j < count && j < contacts.len() && self.struck_by(#[trigger] contacts[j], handle)
    }

    /// The arena after the collision pass over the first `count` contacts:
    /// an entity is marked where one of those contacts deletes it, and is
    /// otherwise as it was.
    pub open spec fn collided_within(self, contacts: Seq<Contact>, count: int) -> Seq<Entity> {
        Seq::new(
            self.entities.len(),
            |h: int|
                if self.struck_within(contacts, count, h as usize) {
                    self.entities[h].mark()
                } else {
                    self.entities[h]
                },
        )
    }

    /// The world after the collision pass.
    pub open spec fn collided(self, contacts: Seq<Contact>) -> WorldView {
        WorldView { entities: self.collided_within(contacts, contacts.len() as int), ..self }
    }

    /// The world after the deletion sweep: every list has lost the handles
    /// of the entities marked for deletion.
    pub open spec fn swept(self) -> WorldView {
        WorldView {
            renderables: self.renderables.map_values(|layer: Seq<usize>| kept(layer, self.entities)),
            updatables: kept(self.updatables, self.entities),
            collidables: kept(self.collidables, self.entities),
            ..self
        }
    }

    /// The player and the arena as a scene in which nothing was fired yet.
    pub open spec fn scene(self) -> Scene {
        Scene { player: self.player, arena: self.entities, fired: FiredView::nothing() }
    }

    /// The world after one request was registered.
    pub open spec fn registered_one(self, request: WorldReq) -> WorldView {
        match request.req_type {
            WorldRequestType::AddDynamicRenderable => {
                let drawn = match request.renderable {
                    Some(r) => WorldView {
                        renderables: layered(self.renderables, r, PROJECTILE_LAYER as int),
                        ..self
                    },
                    None => self,
                };
                match request.collidable {
                    Some(c) => WorldView { collidables: drawn.collidables.push(c), ..drawn },
                    None => drawn,
                }
            },
            WorldRequestType::AddUpdatable => {
                match request.updatable {
                    Some(u) => WorldView { updatables: self.updatables.push(u), ..self },
                    None => self,
                }
            },
        }
    }

    /// The world after `requests` were registered in order.
    pub open spec fn registered(self, requests: Seq<WorldReq>) -> WorldView
        decreases requests.len(),
    {
        if requests.len() == 0 {
            self
        } else {
            self.registered(requests.drop_last()).registered_one(requests.last())
        }
    }

    /// The world once the level has ended, won or lost.
    pub open spec fn ended(self, won: bool) -> WorldView {
        WorldView { game_ended_state: GameEndedState { game_ended: true, won }, ..self }
    }

    /// The world once the one-second timer of the level name has fired, if
    /// it has.
    pub open spec fn timed(self, timer_fired: bool) -> WorldView {
        if timer_fired {
            WorldView { should_display_level_name: false, ..self }
        } else {
            self
        }
    }
}

/// The scene after the update pass over `updatables`: the steps are taken in
/// order, and only the player's step changes the scene.
pub open spec fn stepped_scene(
    scene: Scene,
    updatables: Seq<usize>,
    mouse_states: Seq<(Button, ButtonState)>,
    key_states: Seq<(Button, ButtonState)>,
) -> Scene
    decreases updatables.len(),
{
    if updatables.len() == 0 {
        scene
    } else {
        let before = stepped_scene(scene, updatables.drop_last(), mouse_states, key_states);
        if before.arena[updatables.last() as int] is Player {
            before.after_update(mouse_states, key_states)
        } else {
            before
        }
    }
}

impl WorldView {
    /// The world as the update pass leaves it: the player and the arena are
    /// those of `scene`.
    pub open spec fn with_scene(self, scene: Scene) -> WorldView {
        WorldView { player: scene.player, entities: scene.arena, ..self }
    }

    /// The world as the frame finds it once collisions were resolved and the
    /// deleted entities swept out.
    pub open spec fn cleared(self, contacts: Seq<Contact>) -> WorldView {
        self.collided(contacts).swept()
    }

    /// The scene after the update pass of a frame that goes on.
    pub open spec fn frame_scene(
        self,
        mouse_states: Seq<(Button, ButtonState)>,
        key_states: Seq<(Button, ButtonState)>,
        contacts: Seq<Contact>,
    ) -> Scene {
        stepped_scene(
            self.cleared(contacts).scene(),
            self.cleared(contacts).updatables,
            mouse_states,
            key_states,
        )
    }

    /// The world after a frame of a level that has not ended. The timer is
    /// taken note of first. Victory is looked for before defeat, and either
    /// ends the level with nothing else done. Else collisions are resolved,
    /// the deleted swept out, the updatables stepped, and what they spawned
    /// registered.
    pub open spec fn after_running_frame(
        self,
        mouse_states: Seq<(Button, ButtonState)>,
        key_states: Seq<(Button, ButtonState)>,
        contacts: Seq<Contact>,
        timer_fired: bool,
    ) -> WorldView {
        let noted = self.timed(timer_fired);
        if noted.is_victorious() {
            noted.ended(true)
        } else if noted.was_defeated() {
            noted.ended(false)
        } else {
            let scene = noted.frame_scene(mouse_states, key_states, contacts);
            noted.cleared(contacts).with_scene(scene).registered(scene.fired.requests)
        }
    }

    /// What a frame of a level that has not ended asks of the host: nothing
    /// where the level ends in it; else the entities stepped, the requests
    /// registered and the sounds due.
    pub open spec fn running_frame_report(
        self,
        mouse_states: Seq<(Button, ButtonState)>,
        key_states: Seq<(Button, ButtonState)>,
        contacts: Seq<Contact>,
        timer_fired: bool,
    ) -> FrameView {
        let noted = self.timed(timer_fired);
        if noted.is_victorious() || noted.was_defeated() {
            FrameView::quiet(UpdateResult::running())
        } else {
            let scene = noted.frame_scene(mouse_states, key_states, contacts);
            FrameView {
                result: UpdateResult::running(),
                stepped: noted.cleared(contacts).updatables,
                requests: scene.fired.requests,
                sounds: scene.fired.sounds,
            }
        }
    }

    /// The world after a frame: a level that has ended stays as it is.
    pub open spec fn after_frame(
        self,
        mouse_states: Seq<(Button, ButtonState)>,
        key_states: Seq<(Button, ButtonState)>,
        contacts: Seq<Contact>,
        timer_fired: bool,
    ) -> WorldView {
        if self.game_ended_state.game_ended {
            self
        } else {
            self.after_running_frame(mouse_states, key_states, contacts, timer_fired)
        }
    }

    /// What a frame asks of the host. A level that has ended waits for a
    /// click: it then reports success where it was won and failure where it
    /// was lost.
    pub open spec fn frame_report(
        self,
        mouse_states: Seq<(Button, ButtonState)>,
        key_states: Seq<(Button, ButtonState)>,
        contacts: Seq<Contact>,
        timer_fired: bool,
    ) -> FrameView {
        if self.game_ended_state.game_ended {
            if pressed_now(mouse_states, Button::Mouse(MouseButton::Left)) {
                if self.game_ended_state.won {
                    FrameView::quiet(UpdateResult::success())
                } else {
                    FrameView::quiet(UpdateResult::fail())
                }
            } else {
                FrameView::quiet(UpdateResult::running())
            }
        } else {
            self.running_frame_report(mouse_states, key_states, contacts, timer_fired)
        }
    }
}

/// Whether one of the first `count + 1` contacts deletes an entity: one of the
/// first `count` does, or the next one does.
pub proof fn lemma_struck_step(world: WorldView, contacts: Seq<Contact>, count: int, handle: usize)
    requires
        0 <= count < contacts.len(),
    ensures
        world.struck_within(contacts, count + 1, handle) == (world.struck_within(
            contacts,
            count,
            handle,
        ) || world.struck_by(contacts[count], handle)),
{
    if world.struck_within(contacts, count + 1, handle) {
        let j = choose|j: int|
            0 <= j < count + 1 && j < contacts.len() && world.struck_by(
                #[trigger] contacts[j],
                handle,
            );
        if j < count {
            assert(world.struck_within(contacts, count, handle));
        }
    }
    if world.struck_within(contacts, count, handle) {
        let j = choose|j: int|
            0 <= j < count && j < contacts.len() && world.struck_by(#[trigger] contacts[j], handle);
        assert(world.struck_by(contacts[j], handle));
    }
    if world.struck_by(contacts[count], handle) {
        assert(world.struck_within(contacts, count + 1, handle));
    }
}

/// A well-formed player stays well-formed when the arena keeps its guns.
pub proof fn lemma_player_wf_kept(player: PlayerView, before: Seq<Entity>, after: Seq<Entity>)
    requires
        player.wf(before),
        keeps_guns(before, after),
    ensures
        player.wf(after),
{
    assert forall|i: int| 0 <= i < player.gun_concepts.len() implies (#[trigger] player.gun_concepts[i]).wf(
        after,
    ) by {
        crate::meta_gun::lemma_wf_kept(player.gun_concepts[i], before, after);
    }
}

impl World {
    /// An empty world named `name` for `player`: the player's slot is in the
    /// arena, nothing is registered, and the level has not ended.
    pub fn new(player: Player, name: String, fps_counter: FpsCounter) -> (r: World)
        requires
            player@.wf(Seq::<Entity>::empty()),
        ensures
            r@ == (WorldView {
                entities: seq![Entity::Player],
                renderables: Seq::empty(),
                collidables: Seq::empty(),
                updatables: Seq::empty(),
                game_ended_state: GameEndedState { game_ended: false, won: false },
                player: player@,
                player_handle: 0,
                should_display_level_name: true,
                name: name@,
                fps_counter,
            }),
            r@.wf(),
    {
        let mut entities: Vec<Entity> = Vec::new();
        entities.push(Entity::Player);
        let world = World {
            entities,
            renderables: Vec::new(),
            collidables: Vec::new(),
            updatables: Vec::new(),
            game_ended_state: GameEndedState { game_ended: false, won: false },
            player,
            player_handle: 0,
            should_display_level_name: true,
            name,
            fps_counter,
        };
        proof {
            assert(world@.entities =~= seq![Entity::Player]);
            assert(world@.renderables =~= Seq::empty());
            assert(keeps_guns(Seq::<Entity>::empty(), world@.entities));
            assert forall|i: int| 0 <= i < world@.player.gun_concepts.len() implies (
            #[trigger] world@.player.gun_concepts[i]).wf(world@.entities) by {
                crate::meta_gun::lemma_wf_kept(
                    world@.player.gun_concepts[i],
                    Seq::<Entity>::empty(),
                    world@.entities,
                );
            }
        }
        world
    }

    /// Whether the world is well-formed.
    pub fn is_valid(&self) -> (r: bool)
        ensures
            r == self@.wf(),
    {
        let slots = self.entities.len();
        if !self.player.is_valid(&self.entities) || self.player_handle >= slots || (
        self.game_ended_state.won && !self.game_ended_state.game_ended) {
            return false;
        }
        if !all_below(&self.collidables, slots) || !all_below(&self.updatables, slots) {
            return false;
        }
        let mut l: usize = 0;
        while l < self.renderables.len()
            invariant
                l <= self.renderables@.len(),
                slots == self@.entities.len(),
                forall|k: int| 0 <= k < l ==> in_range(#[trigger] self@.renderables[k], slots as nat),
            decreases self.renderables@.len() - l,
        {
            assert(self@.renderables[l as int] == self.renderables@[l as int]@);
            if !all_below(&self.renderables[l], slots) {
                return false;
            }
            l += 1;
        }
        true
    }

    /// Puts `entity` into the arena and returns its handle.
    pub fn add_entity(&mut self, entity: Entity) -> (handle: usize)
        requires
            old(self)@.wf(),
        ensures
            handle == old(self)@.entities.len(),
            final(self)@ == (WorldView { entities: old(self)@.entities.push(entity), ..old(self)@ }),
            final(self)@.wf(),
    {
        let handle = self.entities.len();
        self.entities.push(entity);
        proof {
            assert(keeps_guns(old(self)@.entities, self@.entities));
            assert forall|i: int| 0 <= i < self@.player.gun_concepts.len() implies (
            #[trigger] self@.player.gun_concepts[i]).wf(self@.entities) by {
                crate::meta_gun::lemma_wf_kept(
                    self@.player.gun_concepts[i],
                    old(self)@.entities,
                    self@.entities,
                );
            }
            assert forall|l: int| 0 <= l < self@.renderables.len() implies in_range(
                #[trigger] self@.renderables[l],
                self@.entities.len(),
            ) by {
                assert(in_range(old(self)@.renderables[l], old(self)@.entities.len()));
            }
        }
        handle
    }

    /// Registers the entity under `renderable` for drawing in the layer
    /// `layer`, adding the layers that are missing up to it.
    pub fn add_renderable_at_layer(&mut self, renderable: usize, layer: usize)
        requires
            old(self)@.wf(),
            renderable < old(self)@.entities.len(),
            layer < usize::MAX,
        ensures
            final(self)@ == (WorldView {
                renderables: layered(old(self)@.renderables, renderable, layer as int),
                ..old(self)@
            }),
            final(self)@.wf(),
    {
        while self.renderables.len() <= layer
            invariant
                layer < usize::MAX,
                renderable < self@.entities.len(),
                self@.wf(),
                old(self)@.renderables.len() <= self@.renderables.len(),
                self@.renderables.len() <= old(self)@.renderables.len() || self@.renderables.len()
                    <= layer + 1,
                self@ == (WorldView { renderables: self@.renderables, ..old(self)@ }),
                forall|l: int|
                    0 <= l < old(self)@.renderables.len() ==> #[trigger] self@.renderables[l] == old(
                        self,
                    )@.renderables[l],
                forall|l: int|
                    old(self)@.renderables.len() <= l < self@.renderables.len()
                        ==> #[trigger] self@.renderables[l] == Seq::<usize>::empty(),
            decreases layer + 1 - self.renderables@.len(),
        {
            let ghost before = self@.renderables;
            self.renderables.push(Vec::new());
            proof {
                assert(self@.renderables =~= before.push(Seq::<usize>::empty()));
                assert forall|l: int| 0 <= l < self@.renderables.len() implies in_range(
                    #[trigger] self@.renderables[l],
                    self@.entities.len(),
                ) by {
                    if l < before.len() {
                        assert(in_range(before[l], self@.entities.len()));
                    }
                }
            }
        }
        let ghost padded = self@.renderables;
        self.renderables[layer].push(renderable);
        proof {
            assert(self@.renderables =~= padded.update(
                layer as int,
                padded[layer as int].push(renderable),
            ));
            let spec_padded = if old(self)@.renderables.len() <= layer {
                old(self)@.renderables + Seq::new(
                    (layer + 1 - old(self)@.renderables.len()) as nat,
                    |i: int| Seq::<usize>::empty(),
                )
            } else {
                old(self)@.renderables
            };
            assert(padded =~= spec_padded);
            assert(self@.renderables =~= layered(old(self)@.renderables, renderable, layer as int));
            assert forall|l: int| 0 <= l < self@.renderables.len() implies in_range(
                #[trigger] self@.renderables[l],
                self@.entities.len(),
            ) by {
                if l != layer {
                    assert(self@.renderables[l] == padded[l]);
                    if l < old(self)@.renderables.len() {
                        assert(in_range(old(self)@.renderables[l], self@.entities.len()));
                    }
                } else {
                    assert(self@.renderables[l] == padded[l].push(renderable));
                    if l < old(self)@.renderables.len() {
                        assert(in_range(old(self)@.renderables[l], self@.entities.len()));
                    }
                }
            }
        }
    }

    /// Registers the entity under `collidable` for collisions.
    pub fn add_collidable(&mut self, collidable: usize)
        requires
            old(self)@.wf(),
            collidable < old(self)@.entities.len(),
        ensures
            final(self)@ == (WorldView {
                collidables: old(self)@.collidables.push(collidable),
                ..old(self)@
            }),
            final(self)@.wf(),
    {
        self.collidables.push(collidable);
        proof {
            assert(self@.renderables =~= old(self)@.renderables);
        }
    }

    /// Registers the entity under `updatable` for stepping.
    pub fn add_updatable(&mut self, updatable: usize)
        requires
            old(self)@.wf(),
            updatable < old(self)@.entities.len(),
        ensures
            final(self)@ == (WorldView {
                updatables: old(self)@.updatables.push(updatable),
                ..old(self)@
            }),
            final(self)@.wf(),
    {
        self.updatables.push(updatable);
        proof {
            assert(self@.renderables =~= old(self)@.renderables);
        }
    }

    /// What the middle of the screen shows.
    pub fn overlay(&self) -> (r: Overlay)
        ensures
            r == self@.overlay(),
    {
        if self.game_ended_state.game_ended {
            if self.game_ended_state.won {
                Overlay::Won
            } else {
                Overlay::Lost
            }
        } else if self.should_display_level_name {
            Overlay::LevelName
        } else {
            Overlay::Nothing
        }
    }

    /// Whether no enemy is left among the entities of the enemy layer; a
    /// world without that layer has none.
    pub fn is_victorious(&self) -> (r: bool)
        requires
            self@.wf(),
        ensures
            r == self@.is_victorious(),
    {
        if self.renderables.len() <= ENEMY_LAYER {
            return true;
        }
        let layer = &self.renderables[ENEMY_LAYER];
        assert(self@.renderables[ENEMY_LAYER as int] == layer@);
        assert(in_range(self@.renderables[ENEMY_LAYER as int], self@.entities.len()));
        let mut i: usize = 0;
        while i < layer.len()
            invariant
                i <= layer@.len(),
                in_range(layer@, self@.entities.len()),
                self@.renderables.len() > ENEMY_LAYER,
                self@.renderables[ENEMY_LAYER as int] == layer@,
                forall|j: int| 0 <= j < i ==> self@.kind_of(#[trigger] layer@[j]) != ObjectType::Enemy,
            decreases layer@.len() - i,
        {
            if self.entities[layer[i]].get_object_type() == ObjectType::Enemy {
                return false;
            }
            i += 1;
        }
        true
    }

    /// Whether some weapon can throw a gun or fire its volley.
    pub fn can_take_action(&self) -> (r: bool)
        ensures
            r == self@.can_take_action(),
    {
        let mut can_take_action = self.player.can_shoot_gun();
        can_take_action = can_take_action || self.player.can_shoot_bullet();
        can_take_action
    }

    /// Whether the level is lost: no weapon can act, and no bullet and no
    /// axe is left among the drawn entities.
    pub fn was_defeated(&self) -> (r: bool)
        requires
            self@.wf(),
        ensures
            r == self@.was_defeated(),
    {
        if self.can_take_action() {
            return false;
        }
        let mut l: usize = 0;
        while l < self.renderables.len()
            invariant
                l <= self.renderables@.len(),
                self@.wf(),
                forall|k: int| 0 <= k < l ==> !#[trigger] self@.layer_lethal(k),
            decreases self.renderables@.len() - l,
        {
            let layer = &self.renderables[l];
            assert(self@.renderables[l as int] == layer@);
            assert(in_range(self@.renderables[l as int], self@.entities.len()));
            let mut i: usize = 0;
            while i < layer.len()
                invariant
                    i <= layer@.len(),
                    l < self.renderables@.len(),
                    in_range(layer@, self@.entities.len()),
                    self@.renderables[l as int] == layer@,
                    forall|j: int| 0 <= j < i ==> !self@.still_lethal(#[trigger] layer@[j]),
                decreases layer@.len() - i,
            {
                let kind = self.entities[layer[i]].get_object_type();
                if kind == ObjectType::Bullet || kind == ObjectType::GunAxe {
                    assert(self@.still_lethal(self@.renderables[l as int][i as int]));
                    assert(self@.layer_lethal(l as int));
                    return false;
                }
                i += 1;
            }
            l += 1;
        }
        true
    }

    /// The collision pass: for every contact between two different
    /// collidables, each side reacts to the kind of the other.
    pub fn resolve_collisions(&mut self, contacts: &Vec<Contact>)
        requires
            old(self)@.wf(),
        ensures
            final(self)@ == old(self)@.collided(contacts@),
            final(self)@.wf(),
            keeps_guns(old(self)@.entities, final(self)@.entities),
    {
        let ghost world = self@;
        let slots = self.entities.len();
        let mut n: usize = 0;
        proof {
            assert(self@.entities =~= world.collided_within(contacts@, 0));
        }
        while n < contacts.len()
            invariant
                n <= contacts@.len(),
                world.entities.len() == slots,
                world == old(self)@,
                world.wf(),
                self@ == (WorldView { entities: self@.entities, ..world }),
                self@.entities == world.collided_within(contacts@, n as int),
            decreases contacts@.len() - n,
        {
            let contact = contacts[n];
            let ghost before = self@.entities;
            proof {
                assert forall|h: int| 0 <= h < before.len() implies (#[trigger] before[h]).kind()
                    == world.entities[h].kind() by {
                    lemma_mark_properties(world.entities[h]);
                }
            }
            let counts = contact.first != contact.second && contains_handle(
                &self.collidables,
                contact.first,
            ) && contains_handle(&self.collidables, contact.second);
            assert(counts == world.valid_contact(contact));
            if counts {
                proof {
                    let i = choose|i: int|
                        0 <= i < world.collidables.len() && world.collidables[i] == contact.first;
                    assert(world.collidables[i] < world.entities.len());
                    let j = choose|j: int|
                        0 <= j < world.collidables.len() && world.collidables[j] == contact.second;
                    assert(world.collidables[j] < world.entities.len());
                }
                let first_kind = self.entities[contact.first].get_object_type();
                let second_kind = self.entities[contact.second].get_object_type();
                assert(first_kind == world.kind_of(contact.first));
                assert(second_kind == world.kind_of(contact.second));
                self.entities[contact.first].collide(second_kind);
                let ghost middle = self@.entities;
                assert(middle == before.update(
                    contact.first as int,
                    before[contact.first as int].collided(second_kind),
                ));
                self.entities[contact.second].collide(first_kind);
                assert(self@.entities == middle.update(
                    contact.second as int,
                    before[contact.second as int].collided(first_kind),
                ));
            }
            proof {
                assert(self@.renderables =~= world.renderables);
                assert forall|h: int| 0 <= h < world.entities.len() implies self@.entities[h]
                    == world.collided_within(contacts@, n + 1)[h] by {
                    let handle = h as usize;
                    lemma_struck_step(world, contacts@, n as int, handle);
                    lemma_mark_properties(world.entities[h]);
                    assert(before[h] == world.collided_within(contacts@, n as int)[h]);
                    if counts {
                        if handle == contact.first {
                            assert(world.struck_by(contact, handle) == deleted_by(
                                world.kind_of(handle),
                                world.kind_of(contact.second),
                            ));
                        } else if handle == contact.second {
                            assert(world.struck_by(contact, handle) == deleted_by(
                                world.kind_of(handle),
                                world.kind_of(contact.first),
                            ));
                        } else {
                            assert(!world.struck_by(contact, handle));
                            assert(self@.entities[h] == before[h]);
                        }
                    } else {
                        assert(!world.struck_by(contact, handle));
                    }
                }
                assert(self@.entities =~= world.collided_within(contacts@, n + 1));
            }
            n += 1;
        }
        proof {
            assert forall|h: int| 0 <= h < world.entities.len() implies (
            #[trigger] world.entities[h] matches Entity::Gun(g) ==> (self@.entities[h] matches Entity::Gun(
                k,
            ) && k.depth == g.depth)) by {
                lemma_mark_properties(world.entities[h]);
            }
            lemma_player_wf_kept(world.player, world.entities, self@.entities);
        }
    }

    /// The deletion sweep: every list loses the handles of the entities
    /// marked for deletion.
    pub fn sweep(&mut self)
        requires
            old(self)@.wf(),
        ensures
            final(self)@ == old(self)@.swept(),
            final(self)@.wf(),
    {
        let ghost world = self@;
        let mut l: usize = 0;
        while l < self.renderables.len()
            invariant
                l <= self@.renderables.len(),
                world == old(self)@,
                self@.renderables.len() == world.renderables.len(),
                self@ == (WorldView { renderables: self@.renderables, ..world }),
                forall|k: int| 0 <= k < l ==> #[trigger] self@.renderables[k] == kept(world.renderables[k], world.entities),
                forall|k: int| l <= k < world.renderables.len() ==> #[trigger] self@.renderables[k] == world.renderables[k],
            decreases self@.renderables.len() - l,
        {
            let ghost before = self@.renderables;
            retain_live(&mut self.renderables[l], &self.entities);
            proof {
                assert(self@.renderables =~= before.update(
                    l as int,
                    kept(before[l as int], world.entities),
                ));
            }
            l += 1;
        }
        let ghost layers = self@.renderables;
        retain_live(&mut self.updatables, &self.entities);
        retain_live(&mut self.collidables, &self.entities);
        proof {
            assert(self@.renderables =~= layers);
            assert(layers =~= world.swept().renderables);
            assert forall|k: int| 0 <= k < self@.renderables.len() implies in_range(
                #[trigger] self@.renderables[k],
                self@.entities.len(),
            ) by {
                lemma_kept_members(world.renderables[k], world.entities);
            }
        }
    }

    /// The update pass: every updatable is stepped in order. Only the
    /// player's step changes the state of the rules; what it spawns is
    /// returned, not registered.
    pub fn step_updatables(&mut self, key_states: &ButtonMap, mouse_states: &ButtonMap) -> (fired: Fired)
        requires
            old(self)@.wf(),
        ensures
            (Scene { player: final(self)@.player, arena: final(self)@.entities, fired: fired@ })
                == stepped_scene(
                old(self)@.scene(),
                old(self)@.updatables,
                mouse_states@,
                key_states@,
            ),
            final(self)@ == old(self)@.with_scene(
                stepped_scene(old(self)@.scene(), old(self)@.updatables, mouse_states@, key_states@),
            ),
            final(self)@.wf(),
            requests_wf(fired@.requests, final(self)@.entities.len()),
            keeps_guns(old(self)@.entities, final(self)@.entities),
    {
        let ghost world = self@;
        let mut fired = Fired::nothing();
        let mut i: usize = 0;
        proof {
            lemma_keeps_guns_refl(self@.entities);
        }
        while i < self.updatables.len()
            invariant
                i <= self@.updatables.len(),
                world == old(self)@,
                world.wf(),
                self@ == (WorldView { player: self@.player, entities: self@.entities, ..world }),
                self@.player.wf(self@.entities),
                keeps_guns(world.entities, self@.entities),
                requests_wf(fired@.requests, self@.entities.len()),
                (Scene { player: self@.player, arena: self@.entities, fired: fired@ })
                    == stepped_scene(
                    world.scene(),
                    world.updatables.take(i as int),
                    mouse_states@,
                    key_states@,
                ),
            decreases self@.updatables.len() - i,
        {
            let handle = self.updatables[i];
            let ghost before = self@.entities;
            proof {
                assert(world.updatables.take(i + 1).drop_last() =~= world.updatables.take(i as int));
                assert(world.updatables.take(i + 1).last() == handle);
                assert(world.updatables[i as int] < world.entities.len());
            }
            if let Entity::Player = self.entities[handle] {
                self.player.update_into(&mut self.entities, key_states, mouse_states, &mut fired);
                proof {
                    lemma_keeps_guns_trans(world.entities, before, self@.entities);
                    assert(self@.renderables =~= world.renderables);
                }
            }
            i += 1;
        }
        proof {
            assert(world.updatables.take(i as int) =~= world.updatables);
            assert forall|l: int| 0 <= l < self@.renderables.len() implies in_range(
                #[trigger] self@.renderables[l],
                self@.entities.len(),
            ) by {
                assert(in_range(world.renderables[l], world.entities.len()));
            }
        }
        fired
    }

    /// Registers what the update pass spawned: a dynamic renderable is drawn
    /// in the projectile layer and collides, an updatable is stepped from
    /// the next frame on.
    pub fn register(&mut self, requests: &Vec<WorldReq>)
        requires
            old(self)@.wf(),
            requests_wf(requests@, old(self)@.entities.len()),
        ensures
            final(self)@ == old(self)@.registered(requests@),
            final(self)@.wf(),
    {
        let mut i: usize = 0;
        while i < requests.len()
            invariant
                i <= requests@.len(),
                self@.wf(),
                self@.entities.len() == old(self)@.entities.len(),
                requests_wf(requests@, old(self)@.entities.len()),
                self@ == old(self)@.registered(requests@.take(i as int)),
            decreases requests@.len() - i,
        {
            let world_req = requests[i];
            proof {
                assert(requests@.take(i + 1).drop_last() =~= requests@.take(i as int));
                assert(requests@.take(i + 1).last() == world_req);
                assert(requests@[i as int].wf(old(self)@.entities.len()));
            }
            match world_req.req_type {
                WorldRequestType::AddDynamicRenderable => {
                    if let Some(renderable) = world_req.renderable {
                        self.add_renderable_at_layer(renderable, PROJECTILE_LAYER);
                    }
                    if let Some(collidable) = world_req.collidable {
                        self.add_collidable(collidable);
                    }
                },
                WorldRequestType::AddUpdatable => {
                    if let Some(updatable) = world_req.updatable {
                        self.add_updatable(updatable);
                    }
                },
            }
            i += 1;
        }
        proof {
            assert(requests@.take(i as int) =~= requests@);
        }
    }

    /// A frame of a level that has not ended.
    pub fn update_game_running(
        &mut self,
        key_states: &ButtonMap,
        mouse_states: &ButtonMap,
        contacts: &Vec<Contact>,
        timer_fired: bool,
    ) -> (frame: Frame)
        requires
            old(self)@.wf(),
        ensures
            final(self)@ == old(self)@.after_running_frame(
                mouse_states@,
                key_states@,
                contacts@,
                timer_fired,
            ),
            frame@ == old(self)@.running_frame_report(
                mouse_states@,
                key_states@,
                contacts@,
                timer_fired,
            ),
            final(self)@.wf(),
    {
        if timer_fired {
            self.should_display_level_name = false;
        }
        assert(self@ == old(self)@.timed(timer_fired));
        if self.is_victorious() {
            self.game_ended_state = GameEndedState { game_ended: true, won: true };
            return Frame::quiet(update_result_running());
        }
        if self.was_defeated() {
            self.game_ended_state = GameEndedState { game_ended: true, won: false };
            return Frame::quiet(update_result_running());
        }
        self.resolve_collisions(contacts);
        self.sweep();
        let stepped = self.updatables.clone();
        let fired = self.step_updatables(key_states, mouse_states);
        self.register(&fired.requests);
        Frame {
            result: update_result_running(),
            stepped,
            requests: fired.requests,
            sounds: fired.sounds,
        }
    }

    /// A frame of a level that was lost: a click asks for the retry.
    pub fn update_game_ended_lost(&self, mouse_states: &ButtonMap) -> (r: UpdateResult)
        ensures
            r == if pressed_now(mouse_states@, Button::Mouse(MouseButton::Left)) {
                UpdateResult::fail()
            } else {
                UpdateResult::running()
            },
    {
        if did_click(mouse_states) {
            update_result_fail()
        } else {
            update_result_running()
        }
    }

    /// A frame of a level that was won: a click asks for the next level.
    pub fn update_game_ended_won(&self, mouse_states: &ButtonMap) -> (r: UpdateResult)
        ensures
            r == if pressed_now(mouse_states@, Button::Mouse(MouseButton::Left)) {
                UpdateResult::success()
            } else {
                UpdateResult::running()
            },
    {
        if did_click(mouse_states) {
            update_result_success()
        } else {
            update_result_running()
        }
    }

    /// One frame. `contacts` are the pairs of collidables whose boxes the
    /// host found to overlap; `timer_fired` says whether the level's name has
    /// been on display for its second.
    pub fn run_frame(
        &mut self,
        key_states: &ButtonMap,
        mouse_states: &ButtonMap,
        contacts: &Vec<Contact>,
        timer_fired: bool,
    ) -> (frame: Frame)
        requires
            old(self)@.wf(),
        ensures
            final(self)@ == old(self)@.after_frame(mouse_states@, key_states@, contacts@, timer_fired),
            frame@ == old(self)@.frame_report(mouse_states@, key_states@, contacts@, timer_fired),
            final(self)@.wf(),
    {
        if !self.game_ended_state.game_ended {
            return self.update_game_running(key_states, mouse_states, contacts, timer_fired);
        }
        if !self.game_ended_state.won {
            return Frame::quiet(self.update_game_ended_lost(mouse_states));
        }
        Frame::quiet(self.update_game_ended_won(mouse_states))
    }
}

impl GameState for World {
    open spec fn ready(&self) -> bool {
        self@.wf()
    }

    open spec fn state_type(&self) -> GameStateType {
        GameStateType::World
    }

    fn update(&mut self, input: &FrameInput) -> (frame: Frame)
        ensures
            final(self)@ == old(self)@.after_frame(
                input.mouse_states@,
                input.key_states@,
                input.contacts@,
                input.timer_fired,
            ),
            frame@ == old(self)@.frame_report(
                input.mouse_states@,
                input.key_states@,
                input.contacts@,
                input.timer_fired,
            ),
    {
        self.run_frame(
            &input.key_states,
            &input.mouse_states,
            &input.contacts,
            input.timer_fired,
        )
    }

    fn get_type(&self) -> (r: GameStateType) {
        GameStateType::World
    }
}

/// Victory: whenever the enemy layer of a level that has not ended holds no
/// enemy, the next frame ends the level as won and does nothing else: every
/// entity and every list stays as it was, nothing is stepped, nothing is
/// registered and no sound is due.
pub proof fn lemma_victory(
    world: WorldView,
    mouse_states: Seq<(Button, ButtonState)>,
    key_states: Seq<(Button, ButtonState)>,
    contacts: Seq<Contact>,
    timer_fired: bool,
)
    requires
        world.wf(),
        !world.game_ended_state.game_ended,
        world.is_victorious(),
    ensures
        world.after_frame(mouse_states, key_states, contacts, timer_fired) == world.timed(
            timer_fired,
        ).ended(true),
        world.after_frame(mouse_states, key_states, contacts, timer_fired).game_ended_state
            == (GameEndedState { game_ended: true, won: true }),
        world.after_frame(mouse_states, key_states, contacts, timer_fired).entities
            == world.entities,
        world.after_frame(mouse_states, key_states, contacts, timer_fired).player == world.player,
        world.frame_report(mouse_states, key_states, contacts, timer_fired) == FrameView::quiet(
            UpdateResult::running(),
        ),
{
    assert(world.timed(timer_fired).is_victorious());
}

/// Defeat: whenever, in a level that has not ended and still holds an enemy,
/// no weapon can throw a gun or fire its volley, and no bullet and no axe is
/// among the drawn entities, the next frame ends the level as lost and does
/// nothing else.
pub proof fn lemma_defeat(
    world: WorldView,
    mouse_states: Seq<(Button, ButtonState)>,
    key_states: Seq<(Button, ButtonState)>,
    contacts: Seq<Contact>,
    timer_fired: bool,
)
    requires
        world.wf(),
        !world.game_ended_state.game_ended,
        !world.is_victorious(),
        !world.player.can_shoot_gun(),
        !world.player.can_shoot_bullet(),
        forall|l: int, i: int|
            0 <= l < world.renderables.len() && 0 <= i < world.renderables[l].len() ==> {
                &&& world.kind_of(#[trigger] world.renderables[l][i]) != ObjectType::Bullet
                &&& world.kind_of(world.renderables[l][i]) != ObjectType::GunAxe
            },
    ensures
        world.after_frame(mouse_states, key_states, contacts, timer_fired) == world.timed(
            timer_fired,
        ).ended(false),
        world.after_frame(mouse_states, key_states, contacts, timer_fired).game_ended_state
            == (GameEndedState { game_ended: true, won: false }),
        world.after_frame(mouse_states, key_states, contacts, timer_fired).entities
            == world.entities,
        world.frame_report(mouse_states, key_states, contacts, timer_fired) == FrameView::quiet(
            UpdateResult::running(),
        ),
{
    let noted = world.timed(timer_fired);
    assert(!noted.is_victorious());
    assert(!noted.anything_lethal()) by {
        if noted.anything_lethal() {
            let l = choose|l: int| 0 <= l < noted.renderables.len() && #[trigger] noted.layer_lethal(l);
            let i = choose|i: int|
                0 <= i < noted.renderables[l].len() && noted.still_lethal(
                    #[trigger] noted.renderables[l][i],
                );
            assert(world.kind_of(world.renderables[l][i]) != ObjectType::Bullet);
        }
    }
    assert(noted.was_defeated());
}

/// Collisions are symmetric: which side of a contact is named first makes
/// no difference to what the contact deletes.
pub proof fn lemma_contact_sides_swap(world: WorldView, first: usize, second: usize, handle: usize)
    ensures
        world.struck_by(Contact { first, second }, handle) == world.struck_by(
            Contact { first: second, second: first },
            handle,
        ),
{
}

/// Both sides of a contact react: after the collision pass each of the two
/// collidables of a contact among `contacts` is marked where the kind of the
/// other deletes its kind.
pub proof fn lemma_both_sides_react(world: WorldView, contacts: Seq<Contact>, index: int)
    requires
        world.wf(),
        0 <= index < contacts.len(),
        world.valid_contact(contacts[index]),
    ensures
        ({
            let contact = contacts[index];
            let after = world.collided(contacts).entities;
            &&& deleted_by(world.kind_of(contact.first), world.kind_of(contact.second))
                ==> after[contact.first as int] == world.entities[contact.first as int].mark()
            &&& deleted_by(world.kind_of(contact.second), world.kind_of(contact.first))
                ==> after[contact.second as int] == world.entities[contact.second as int].mark()
        }),
{
    let contact = contacts[index];
    lemma_collidables_in_range(world, contact.first);
    lemma_collidables_in_range(world, contact.second);
    if deleted_by(world.kind_of(contact.first), world.kind_of(contact.second)) {
        assert(world.struck_by(contacts[index], contact.first));
    }
    if deleted_by(world.kind_of(contact.second), world.kind_of(contact.first)) {
        assert(world.struck_by(contacts[index], contact.second));
    }
}

/// A bullet that overlaps an enemy deletes both: after the collision pass
/// the bullet and the enemy of such a contact are marked for deletion,
/// whichever of them the contact names first.
pub proof fn lemma_bullet_meets_enemy(world: WorldView, contacts: Seq<Contact>, index: int)
    requires
        world.wf(),
        0 <= index < contacts.len(),
        world.valid_contact(contacts[index]),
        (world.kind_of(contacts[index].first) == ObjectType::Bullet && world.kind_of(
            contacts[index].second,
        ) == ObjectType::Enemy) || (world.kind_of(contacts[index].first) == ObjectType::Enemy
            && world.kind_of(contacts[index].second) == ObjectType::Bullet),
    ensures
        world.collided(contacts).entities[contacts[index].first as int].marked(),
        world.collided(contacts).entities[contacts[index].second as int].marked(),
{
    lemma_both_sides_react(world, contacts, index);
    lemma_mark_properties(world.entities[contacts[index].first as int]);
    lemma_mark_properties(world.entities[contacts[index].second as int]);
}

/// A reaction counts once: reporting a contact again, in either order of
/// its sides, changes nothing of what the collision pass leaves.
pub proof fn lemma_repeated_contact(world: WorldView, contacts: Seq<Contact>, index: int)
    requires
        0 <= index < contacts.len(),
    ensures
        world.collided(contacts.push(contacts[index])) == world.collided(contacts),
        world.collided(
            contacts.push(Contact { first: contacts[index].second, second: contacts[index].first }),
        ) == world.collided(contacts),
{
    let same = contacts.push(contacts[index]);
    let swapped = contacts.push(
        Contact { first: contacts[index].second, second: contacts[index].first },
    );
    let plain = world.collided(contacts).entities;
    let again = world.collided(same).entities;
    let turned = world.collided(swapped).entities;
    assert forall|h: int| 0 <= h < world.entities.len() implies #[trigger] again[h] == plain[h]
        && turned[h] == plain[h] by {
        let handle = h as usize;
        lemma_struck_step(world, same, contacts.len() as int, handle);
        lemma_struck_step(world, swapped, contacts.len() as int, handle);
        lemma_struck_prefix(world, same, contacts, contacts.len() as int, handle);
        lemma_struck_prefix(world, swapped, contacts, contacts.len() as int, handle);
        if world.struck_by(contacts[index], handle) {
            assert(world.struck_within(contacts, contacts.len() as int, handle));
        }
    }
    assert(world.collided(same).entities =~= world.collided(contacts).entities);
    assert(world.collided(swapped).entities =~= world.collided(contacts).entities);
}

/// Whether one of the first `count` contacts deletes an entity depends on
/// those contacts only.
pub proof fn lemma_struck_prefix(
    world: WorldView,
    longer: Seq<Contact>,
    shorter: Seq<Contact>,
    count: int,
    handle: usize,
)
    requires
        0 <= count <= shorter.len() <= longer.len(),
        forall|j: int| 0 <= j < count ==> longer[j] == shorter[j],
    ensures
        world.struck_within(longer, count, handle) == world.struck_within(shorter, count, handle),
{
    if world.struck_within(longer, count, handle) {
        let j = choose|j: int|
            0 <= j < count && j < longer.len() && world.struck_by(#[trigger] longer[j], handle);
        assert(world.struck_by(shorter[j], handle));
    }
    if world.struck_within(shorter, count, handle) {
        let j = choose|j: int|
            0 <= j < count && j < shorter.len() && world.struck_by(#[trigger] shorter[j], handle);
        assert(world.struck_by(longer[j], handle));
    }
}

/// A collidable of a well-formed world has a slot in the arena.
pub proof fn lemma_collidables_in_range(world: WorldView, handle: usize)
    requires
        world.wf(),
        world.collidables.contains(handle),
    ensures
        handle < world.entities.len(),
{
    let i = choose|i: int| 0 <= i < world.collidables.len() && world.collidables[i] == handle;
    assert(world.collidables[i] < world.entities.len());
}

/// A level that has ended stays as it is, whatever the input.
pub proof fn lemma_ended_level_rests(
    world: WorldView,
    mouse_states: Seq<(Button, ButtonState)>,
    key_states: Seq<(Button, ButtonState)>,
    contacts: Seq<Contact>,
    timer_fired: bool,
)
    requires
        world.game_ended_state.game_ended,
    ensures
        world.after_frame(mouse_states, key_states, contacts, timer_fired) == world,
        world.frame_report(mouse_states, key_states, contacts, timer_fired).stepped.len() == 0,
        world.frame_report(mouse_states, key_states, contacts, timer_fired).requests.len() == 0,
        world.frame_report(mouse_states, key_states, contacts, timer_fired).sounds.len() == 0,
{
}

/// After the sweep no list holds the handle of an entity that is marked for
/// deletion, and every handle that is left was in its list before.
pub proof fn lemma_swept_lists_are_live(world: WorldView)
    ensures
        forall|i: int|
            0 <= i < world.swept().collidables.len() ==> live(
                world.entities,
                #[trigger] world.swept().collidables[i],
            ) && world.collidables.contains(world.swept().collidables[i]),
        forall|i: int|
            0 <= i < world.swept().updatables.len() ==> live(
                world.entities,
                #[trigger] world.swept().updatables[i],
            ) && world.updatables.contains(world.swept().updatables[i]),
        world.swept().renderables.len() == world.renderables.len(),
        forall|l: int, i: int|
            0 <= l < world.renderables.len() && 0 <= i < world.swept().renderables[l].len() ==> live(
                world.entities,
                #[trigger] world.swept().renderables[l][i],
            ) && world.renderables[l].contains(world.swept().renderables[l][i]),
{
    lemma_kept_members(world.collidables, world.entities);
    lemma_kept_members(world.updatables, world.entities);
    assert forall|l: int, i: int|
        0 <= l < world.renderables.len() && 0 <= i < world.swept().renderables[l].len() implies live(
        world.entities,
        #[trigger] world.swept().renderables[l][i],
    ) && world.renderables[l].contains(world.swept().renderables[l][i]) by {
        lemma_kept_members(world.renderables[l], world.entities);
    }
}

} // verus!
