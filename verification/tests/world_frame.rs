use piston_shooty::entity::Entity;
use piston_shooty::game_object::GameObject;
use piston_shooty::game_state::{FrameInput, GameState, GameStateType, UpdateResultType};
use piston_shooty::geometry::GridPoint;
use piston_shooty::input::{Button, ButtonMap, ButtonState, Key, MouseButton};
use piston_shooty::level::{load_level, LevelAssets};
use piston_shooty::object_type::ObjectType;
use piston_shooty::renderable::Renderable;
use piston_shooty::renderable_object::{RenderableObject, Texture};
use piston_shooty::world::{Contact, GameEndedState, Overlay, World};
use piston_shooty::world_req::WorldReq;

fn texture(id: usize) -> Texture {
    Texture { id, width: 10 + id as u32, height: 20 + id as u32 }
}

fn assets() -> LevelAssets {
    LevelAssets {
        player: texture(0),
        player_selected: texture(1),
        hand_gun: texture(2),
        hand_gun_selected: texture(3),
        gun_axe: texture(4),
        gun_axe_selected: texture(5),
        bullet: texture(6),
        wall: texture(7),
        enemy: texture(8),
        ground: texture(9),
        gun_sound: 100,
        bullet_sound: 101,
    }
}

fn pressed() -> ButtonState {
    ButtonState { held: false, pressed: true, released: false }
}

fn mouse(buttons: &[MouseButton]) -> ButtonMap {
    let mut map = ButtonMap::new();
    for b in buttons {
        map.insert(Button::Mouse(*b), pressed());
    }
    map
}

fn keys(pressed_keys: &[Key]) -> ButtonMap {
    let mut map = ButtonMap::new();
    for k in pressed_keys {
        map.insert(Button::Keyboard(*k), pressed());
    }
    map
}

fn arena_world() -> World {
    load_level(b"W,P,E\n", String::from("arena"), &assets()).unwrap()
}

fn quiet_frame(world: &mut World, contacts: &[Contact]) {
    world.run_frame(&ButtonMap::new(), &ButtonMap::new(), &contacts.to_vec(), false);
}

fn kind(world: &World, handle: usize) -> ObjectType {
    world.entities[handle].get_object_type()
}

#[test]
fn level_lists_follow_the_grid() {
    let world = arena_world();
    assert_eq!(world.entities.len(), 5);
    assert_eq!(kind(&world, 0), ObjectType::Player);
    assert_eq!(kind(&world, 1), ObjectType::Wall);
    assert_eq!(kind(&world, 2), ObjectType::Ground);
    assert_eq!(kind(&world, 3), ObjectType::Ground);
    assert_eq!(kind(&world, 4), ObjectType::Enemy);
    assert_eq!(world.renderables, vec![vec![1, 2, 3], vec![0, 4]]);
    assert_eq!(world.collidables, vec![1, 4]);
    assert_eq!(world.updatables, vec![0]);
    assert_eq!(world.player.position, GridPoint { x: 60, y: 20 });
    assert_eq!(world.game_ended_state, GameEndedState { game_ended: false, won: false });
    assert!(world.is_valid());
    assert!(!world.is_victorious());
    assert!(!world.was_defeated());
    assert!(world.can_take_action());
    assert_eq!(world.overlay(), Overlay::LevelName);
}

#[test]
fn victory_ends_the_level_before_anything_is_simulated() {
    let mut world = load_level(b"W,P,_\n", String::from("empty"), &assets()).unwrap();
    let entities = world.entities.clone();
    let renderables = world.renderables.clone();
    let frame = world.run_frame(
        &keys(&[Key::Q]),
        &mouse(&[MouseButton::Left, MouseButton::Right]),
        &vec![Contact { first: 1, second: 0 }],
        true,
    );
    assert_eq!(world.game_ended_state, GameEndedState { game_ended: true, won: true });
    assert_eq!(frame.result.result_type, UpdateResultType::Running);
    assert!(frame.stepped.is_empty() && frame.requests.is_empty() && frame.sounds.is_empty());
    assert_eq!(world.entities, entities);
    assert_eq!(world.renderables, renderables);
    assert_eq!(world.player.gun_concepts[0].shots_taken, 0);
    assert_eq!(world.player.current_gun_concept_index, 0);
    assert!(!world.should_display_level_name);
    assert_eq!(world.overlay(), Overlay::Won);
}

#[test]
fn world_without_enemy_layer_is_victorious() {
    let mut world = load_level(b"W,W\n", String::from("walls"), &assets()).unwrap();
    assert_eq!(world.renderables.len(), 1);
    assert!(world.is_victorious());
    quiet_frame(&mut world, &[]);
    assert!(world.game_ended_state.won);
}

#[test]
fn gun_trigger_spawns_a_registered_gun() {
    let mut world = arena_world();
    let frame = world.run_frame(&ButtonMap::new(), &mouse(&[MouseButton::Left]), &Vec::new(), false);
    assert_eq!(frame.stepped, vec![0]);
    assert_eq!(frame.sounds, vec![100]);
    assert_eq!(
        frame.requests,
        vec![WorldReq::new_dynamic_renderable(5), WorldReq::new_updatable(5)]
    );
    assert_eq!(kind(&world, 5), ObjectType::HandGun);
    assert_eq!(world.renderables, vec![vec![1, 2, 3], vec![0, 4], vec![5]]);
    assert_eq!(world.collidables, vec![1, 4, 5]);
    assert_eq!(world.updatables, vec![0, 5]);
    assert_eq!(world.player.gun_concepts[0].guns, vec![5]);
    assert!(world.is_valid());
    assert_eq!(
        world.player.get_renderable_object(),
        RenderableObject { texture: texture(0) }
    );
    let frame = world.run_frame(&ButtonMap::new(), &ButtonMap::new(), &Vec::new(), false);
    assert_eq!(frame.stepped, vec![0, 5]);
    assert!(frame.requests.is_empty());
}

#[test]
fn held_trigger_does_not_fire() {
    let mut world = arena_world();
    let mut held = ButtonMap::new();
    held.insert(
        Button::Mouse(MouseButton::Left),
        ButtonState { held: true, pressed: false, released: false },
    );
    let frame = world.run_frame(&ButtonMap::new(), &held, &Vec::new(), false);
    assert!(frame.requests.is_empty());
    assert!(frame.sounds.is_empty());
    assert_eq!(world.entities.len(), 5);
}

#[test]
fn gun_that_hits_a_wall_is_swept_and_pruned() {
    let mut world = arena_world();
    world.run_frame(&ButtonMap::new(), &mouse(&[MouseButton::Left]), &Vec::new(), false);
    let frame = world.run_frame(
        &ButtonMap::new(),
        &ButtonMap::new(),
        &vec![Contact { first: 5, second: 1 }],
        false,
    );
    assert!(world.entities[5].get_should_delete());
    assert!(!world.entities[1].get_should_delete());
    assert_eq!(world.renderables[2], Vec::<usize>::new());
    assert_eq!(world.collidables, vec![1, 4]);
    assert_eq!(world.updatables, vec![0]);
    assert_eq!(frame.stepped, vec![0]);
    assert!(world.player.gun_concepts[0].guns.is_empty());
    assert_eq!(world.player.gun_concepts[0].shots_taken, 1);
    assert_eq!(
        world.player.get_renderable_object(),
        RenderableObject { texture: texture(1) }
    );
}

#[test]
fn hand_gun_does_not_kill_an_enemy_but_an_axe_does() {
    let mut world = arena_world();
    world.run_frame(&ButtonMap::new(), &mouse(&[MouseButton::Left]), &Vec::new(), false);
    quiet_frame(&mut world, &[Contact { first: 4, second: 5 }]);
    assert!(!world.entities[4].get_should_delete());
    assert!(!world.entities[5].get_should_delete());
    world.run_frame(&keys(&[Key::Q]), &ButtonMap::new(), &Vec::new(), false);
    assert_eq!(world.player.current_gun_concept_index, 1);
    world.run_frame(&ButtonMap::new(), &mouse(&[MouseButton::Left]), &Vec::new(), false);
    assert_eq!(kind(&world, 6), ObjectType::GunAxe);
    quiet_frame(&mut world, &[Contact { first: 6, second: 4 }]);
    assert!(world.entities[4].get_should_delete());
    assert!(!world.entities[6].get_should_delete());
    assert_eq!(world.renderables[1], vec![0]);
    quiet_frame(&mut world, &[]);
    assert_eq!(world.game_ended_state, GameEndedState { game_ended: true, won: true });
}

#[test]
fn bullet_and_enemy_delete_each_other_in_either_order() {
    for swapped in [false, true] {
        let mut world = arena_world();
        world.run_frame(&ButtonMap::new(), &mouse(&[MouseButton::Left]), &Vec::new(), false);
        let frame =
            world.run_frame(&ButtonMap::new(), &mouse(&[MouseButton::Right]), &Vec::new(), false);
        assert_eq!(frame.sounds, vec![101]);
        assert_eq!(kind(&world, 6), ObjectType::Bullet);
        assert_eq!(world.renderables[2], vec![5, 6]);
        let contact = if swapped {
            Contact { first: 4, second: 6 }
        } else {
            Contact { first: 6, second: 4 }
        };
        quiet_frame(&mut world, &[contact, contact]);
        assert!(world.entities[6].get_should_delete());
        assert!(world.entities[4].get_should_delete());
        assert_eq!(world.renderables[1], vec![0]);
        assert_eq!(world.renderables[2], vec![5]);
        assert_eq!(world.collidables, vec![1, 5]);
        assert_eq!(world.updatables, vec![0, 5]);
        quiet_frame(&mut world, &[]);
        assert!(world.game_ended_state.won);
    }
}

#[test]
fn contacts_that_do_not_name_two_collidables_are_ignored() {
    let mut world = arena_world();
    world.run_frame(&ButtonMap::new(), &mouse(&[MouseButton::Left]), &Vec::new(), false);
    world.run_frame(&ButtonMap::new(), &mouse(&[MouseButton::Right]), &Vec::new(), false);
    let before = world.entities.clone();
    quiet_frame(
        &mut world,
        &[
            Contact { first: 6, second: 6 },
            Contact { first: 6, second: 99 },
            Contact { first: 99, second: 4 },
            Contact { first: 2, second: 6 },
            Contact { first: 0, second: 4 },
        ],
    );
    assert_eq!(world.entities, before);
}

#[test]
fn fire_and_volley_in_one_frame_follow_the_order_of_the_map() {
    let mut world = arena_world();
    let frame = world.run_frame(
        &ButtonMap::new(),
        &mouse(&[MouseButton::Left, MouseButton::Right]),
        &Vec::new(),
        false,
    );
    assert_eq!(frame.sounds, vec![100, 101]);
    assert_eq!(frame.requests.len(), 4);
    assert_eq!(kind(&world, 5), ObjectType::HandGun);
    assert_eq!(kind(&world, 6), ObjectType::Bullet);

    let mut world = arena_world();
    let frame = world.run_frame(
        &ButtonMap::new(),
        &mouse(&[MouseButton::Right, MouseButton::Left]),
        &Vec::new(),
        false,
    );
    assert_eq!(frame.sounds, vec![100]);
    assert_eq!(frame.requests.len(), 2);
    assert!(!world.player.gun_concepts[0].has_shot_bullet);
}

#[test]
fn weapon_selection_wraps_around() {
    let mut world = arena_world();
    world.run_frame(&ButtonMap::new(), &mouse(&[MouseButton::Left]), &Vec::new(), false);
    world.run_frame(&keys(&[Key::E]), &ButtonMap::new(), &Vec::new(), false);
    assert_eq!(world.player.current_gun_concept_index, 1);
    assert!(world.player.gun_concepts[1].is_selected);
    assert!(!world.player.gun_concepts[0].is_selected);
    match world.entities[5] {
        Entity::Gun(g) => assert!(!g.is_selected),
        other => panic!("slot 5 holds {:?}", other),
    }
    world.run_frame(&keys(&[Key::Q]), &ButtonMap::new(), &Vec::new(), false);
    assert_eq!(world.player.current_gun_concept_index, 0);
    assert!(world.player.gun_concepts[0].is_selected);
    match world.entities[5] {
        Entity::Gun(g) => assert!(g.is_selected),
        other => panic!("slot 5 holds {:?}", other),
    }
    world.run_frame(&keys(&[Key::Q, Key::E]), &ButtonMap::new(), &Vec::new(), false);
    assert_eq!(world.player.current_gun_concept_index, 0);
    world.run_frame(&keys(&[Key::Up, Key::Return]), &ButtonMap::new(), &Vec::new(), false);
    assert_eq!(world.player.current_gun_concept_index, 0);
}

fn exhaust_both_weapons(world: &mut World) {
    world.run_frame(&ButtonMap::new(), &mouse(&[MouseButton::Left]), &Vec::new(), false);
    world.run_frame(&ButtonMap::new(), &mouse(&[MouseButton::Right]), &Vec::new(), false);
    world.run_frame(&keys(&[Key::Q]), &ButtonMap::new(), &Vec::new(), false);
    world.run_frame(&ButtonMap::new(), &mouse(&[MouseButton::Left]), &Vec::new(), false);
    world.run_frame(&ButtonMap::new(), &mouse(&[MouseButton::Right]), &Vec::new(), false);
}

#[test]
fn defeat_waits_until_nothing_lethal_is_in_flight() {
    let mut world = arena_world();
    exhaust_both_weapons(&mut world);
    assert_eq!(kind(&world, 5), ObjectType::HandGun);
    assert_eq!(kind(&world, 6), ObjectType::Bullet);
    assert_eq!(kind(&world, 7), ObjectType::GunAxe);
    assert_eq!(kind(&world, 8), ObjectType::Bullet);
    assert!(!world.can_take_action());
    assert!(!world.was_defeated());
    quiet_frame(&mut world, &[Contact { first: 1, second: 6 }, Contact { first: 8, second: 1 }]);
    assert!(!world.game_ended_state.game_ended);
    assert!(!world.was_defeated());
    quiet_frame(&mut world, &[Contact { first: 7, second: 1 }]);
    assert!(!world.game_ended_state.game_ended);
    assert_eq!(world.renderables[2], vec![5]);
    assert!(world.was_defeated());
    let before = world.entities.clone();
    let frame = world.run_frame(
        &ButtonMap::new(),
        &mouse(&[MouseButton::Left]),
        &vec![Contact { first: 5, second: 1 }],
        false,
    );
    assert_eq!(world.game_ended_state, GameEndedState { game_ended: true, won: false });
    assert_eq!(frame.result.result_type, UpdateResultType::Running);
    assert!(frame.stepped.is_empty());
    assert_eq!(world.entities, before);
    assert_eq!(world.overlay(), Overlay::Lost);
}

#[test]
fn lost_level_reports_failure_on_click_only() {
    let mut world = arena_world();
    exhaust_both_weapons(&mut world);
    quiet_frame(
        &mut world,
        &[
            Contact { first: 1, second: 6 },
            Contact { first: 8, second: 1 },
            Contact { first: 7, second: 1 },
        ],
    );
    quiet_frame(&mut world, &[]);
    assert!(world.game_ended_state.game_ended && !world.game_ended_state.won);
    let frame = world.run_frame(&keys(&[Key::Return]), &ButtonMap::new(), &Vec::new(), false);
    assert_eq!(frame.result.result_type, UpdateResultType::Running);
    let frame = world.run_frame(&ButtonMap::new(), &mouse(&[MouseButton::Right]), &Vec::new(), false);
    assert_eq!(frame.result.result_type, UpdateResultType::Running);
    let frame = world.run_frame(&ButtonMap::new(), &mouse(&[MouseButton::Left]), &Vec::new(), false);
    assert_eq!(frame.result.result_type, UpdateResultType::Fail);
    assert_eq!(frame.result.result_code, 0);
}

#[test]
fn victory_comes_before_defeat() {
    let mut world = load_level(b"P\n", String::from("bare"), &assets()).unwrap();
    world.player.gun_concepts[0].has_shot_bullet = true;
    world.player.gun_concepts[1].has_shot_bullet = true;
    assert!(world.is_valid());
    assert!(world.was_defeated());
    quiet_frame(&mut world, &[]);
    assert_eq!(world.game_ended_state, GameEndedState { game_ended: true, won: true });
}

#[test]
fn timer_takes_the_level_name_down() {
    let mut world = arena_world();
    quiet_frame(&mut world, &[]);
    assert_eq!(world.overlay(), Overlay::LevelName);
    world.run_frame(&ButtonMap::new(), &ButtonMap::new(), &Vec::new(), true);
    assert_eq!(world.overlay(), Overlay::Nothing);
}

#[test]
fn registration_adds_missing_layers() {
    let mut world = load_level(b"", String::from("void"), &assets()).unwrap();
    assert!(world.renderables.is_empty());
    world.add_renderable_at_layer(0, 3);
    assert_eq!(world.renderables, vec![vec![], vec![], vec![], vec![0]]);
    world.add_renderable_at_layer(0, 1);
    assert_eq!(world.renderables, vec![vec![], vec![0], vec![], vec![0]]);
    world.add_collidable(0);
    world.add_updatable(0);
    assert_eq!(world.collidables, vec![0]);
    assert_eq!(world.updatables, vec![0]);
    assert!(world.is_valid());
    world.collidables.push(9);
    assert!(!world.is_valid());
}

#[test]
fn world_is_a_game_state() {
    let mut world = arena_world();
    assert_eq!(world.get_type(), GameStateType::World);
    let input = FrameInput {
        key_states: ButtonMap::new(),
        mouse_states: mouse(&[MouseButton::Left]),
        contacts: Vec::new(),
        timer_fired: false,
    };
    let frame = GameState::update(&mut world, &input);
    assert_eq!(frame.sounds, vec![100]);
    assert_eq!(world.entities.len(), 6);
}
