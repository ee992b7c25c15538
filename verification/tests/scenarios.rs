use piston_shooty::entity::Entity;
use piston_shooty::game_state::UpdateResultType;
use piston_shooty::gun_axe::GunAxe;
use piston_shooty::gun_behavior::GunBehavior;
use piston_shooty::hand_gun::HandGun;
use piston_shooty::input::{Button, ButtonMap, ButtonState, MouseButton};
use piston_shooty::level::{load_level, LevelAssets};
use piston_shooty::meta_gun::MetaGun;
use piston_shooty::renderable_object::Texture;
use piston_shooty::world_req::WorldRequestType;

fn texture(id: usize) -> Texture {
    Texture { id, width: 32, height: 16 }
}

fn assets() -> LevelAssets {
    LevelAssets {
        player: texture(0),
        player_selected: texture(1),
        hand_gun: texture(2),
        hand_gun_selected: texture(3),
        gun_axe: texture(4),
        gun_axe_selected: texture(5),
        bullet: texture(6),
        wall: texture(7),
        enemy: texture(8),
        ground: texture(9),
        gun_sound: 100,
        bullet_sound: 101,
    }
}

fn concept(strategy: GunBehavior) -> MetaGun {
    MetaGun::new(texture(2), texture(3), 100, texture(6), 101, strategy)
}

#[test]
fn level_without_enemies_is_won_on_first_update() {
    let mut world = load_level(b"P\n", String::from("one"), &assets()).unwrap();
    assert!(world.is_victorious());
    let keys = ButtonMap::new();
    let mouse = ButtonMap::new();
    let frame = world.run_frame(&keys, &mouse, &Vec::new(), false);
    assert_eq!(frame.result.result_type, UpdateResultType::Running);
    assert!(world.game_ended_state.game_ended);
    assert!(world.game_ended_state.won);
    assert!(frame.stepped.is_empty());
    assert!(frame.requests.is_empty());
    assert!(frame.sounds.is_empty());
}

#[test]
fn hand_gun_fires_three_guns_then_three_bullets() {
    let mut arena: Vec<Entity> = vec![Entity::Player];
    let mut hand_gun = concept(GunBehavior::HandGun(HandGun { should_delete: false }));
    for shot in 0..3 {
        let fired = hand_gun.shoot_gun(&mut arena);
        assert_eq!(fired.requests.len(), 2);
        assert_eq!(fired.requests[0].req_type, WorldRequestType::AddDynamicRenderable);
        assert_eq!(fired.requests[0].renderable, Some(shot + 1));
        assert_eq!(fired.requests[0].collidable, Some(shot + 1));
        assert_eq!(fired.requests[1].req_type, WorldRequestType::AddUpdatable);
        assert_eq!(fired.requests[1].updatable, Some(shot + 1));
        assert_eq!(fired.sounds, vec![100]);
    }
    assert_eq!(hand_gun.shots_taken, 3);
    assert_eq!(hand_gun.guns, vec![1, 2, 3]);
    let volley = hand_gun.shoot_bullets(&mut arena);
    assert_eq!(volley.requests.len(), 6);
    assert_eq!(volley.sounds, vec![101, 101, 101]);
    assert!(hand_gun.has_shot_bullet);
    assert_eq!(arena.len(), 7);
    for (i, slot) in arena[4..].iter().enumerate() {
        match slot {
            Entity::Bullet(bullet) => assert_eq!(bullet.source, i + 1),
            other => panic!("slot {} holds {:?}", i + 4, other),
        }
    }
    let again = hand_gun.shoot_gun(&mut arena);
    assert!(again.requests.is_empty());
    assert!(again.sounds.is_empty());
    let again = hand_gun.shoot_bullets(&mut arena);
    assert!(again.requests.is_empty());
    assert!(again.sounds.is_empty());
    assert_eq!(arena.len(), 7);
    assert_eq!(hand_gun.shots_taken, 3);
}

#[test]
fn gun_axe_rejects_third_shot() {
    let mut arena: Vec<Entity> = vec![Entity::Player];
    let mut gun_axe = concept(GunBehavior::GunAxe(GunAxe { should_delete: false }));
    assert_eq!(gun_axe.shoot_gun(&mut arena).requests.len(), 2);
    assert_eq!(gun_axe.shoot_gun(&mut arena).requests.len(), 2);
    assert!(!gun_axe.can_shoot_gun());
    let third = gun_axe.shoot_gun(&mut arena);
    assert!(third.requests.is_empty());
    assert!(third.sounds.is_empty());
    assert_eq!(gun_axe.shots_taken, 2);
    assert_eq!(arena.len(), 3);
}

#[test]
fn click_after_victory_reports_success() {
    let mut world = load_level(b"P\n", String::from("one"), &assets()).unwrap();
    let keys = ButtonMap::new();
    let mut mouse = ButtonMap::new();
    world.run_frame(&keys, &mouse, &Vec::new(), false);
    mouse.insert(
        Button::Mouse(MouseButton::Left),
        ButtonState { held: false, pressed: true, released: false },
    );
    let frame = world.run_frame(&keys, &mouse, &Vec::new(), false);
    assert_eq!(frame.result.result_type, UpdateResultType::Success);
}
