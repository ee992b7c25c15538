use piston_shooty::collidable::Collidable;
use piston_shooty::collidable_object::CollidableObject;
use piston_shooty::enemy::Enemy;
use piston_shooty::entity::Entity;
use piston_shooty::fps_counter::FpsCounter;
use piston_shooty::game_object::GameObject;
use piston_shooty::geometry::{center_of_cell, GridPoint, Ratio, CELL_HEIGHT, CELL_WIDTH};
use piston_shooty::ground::Ground;
use piston_shooty::gun_axe::GunAxe;
use piston_shooty::gun_behavior::GunBehavior;
use piston_shooty::hand_gun::HandGun;
use piston_shooty::level::{build_level, load_level, LevelAssets, LevelError};
use piston_shooty::object_type::ObjectType;
use piston_shooty::renderable::Renderable;
use piston_shooty::renderable_object::{RenderableObject, Texture};
use piston_shooty::wall::Wall;

fn texture(id: usize) -> Texture {
    Texture { id, width: 40, height: 40 }
}

fn assets() -> LevelAssets {
    LevelAssets {
        player: texture(0),
        player_selected: texture(1),
        hand_gun: texture(2),
        hand_gun_selected: texture(3),
        gun_axe: texture(4),
        gun_axe_selected: texture(5),
        bullet: texture(6),
        wall: Texture { id: 7, width: 41, height: 39 },
        enemy: Texture { id: 8, width: 30, height: 31 },
        ground: texture(9),
        gun_sound: 100,
        bullet_sound: 101,
    }
}

#[test]
fn cell_centres_are_exact() {
    assert_eq!(CELL_WIDTH, 40);
    assert_eq!(CELL_HEIGHT, 40);
    assert_eq!(center_of_cell(0, 0), GridPoint { x: 20, y: 20 });
    assert_eq!(center_of_cell(31, 17), GridPoint { x: 1260, y: 700 });
    assert_eq!(center_of_cell(3, 1), GridPoint { x: 140, y: 60 });
    assert_eq!(
        center_of_cell(107_374_181, 107_374_181),
        GridPoint { x: 4_294_967_260, y: 4_294_967_260 }
    );
}

#[test]
fn every_cell_kind_is_placed() {
    let world = load_level(b"W,_,x\nP,E,\n", String::from("mix"), &assets()).unwrap();
    assert_eq!(world.name, "mix");
    assert_eq!(world.entities.len(), 6);
    assert_eq!(
        world.entities[1],
        Entity::Wall(Wall {
            position: GridPoint { x: 20, y: 20 },
            scale: Ratio { numerator: 1, denominator: 1 },
            renderable_object: RenderableObject { texture: assets().wall },
            collidable_object: CollidableObject { width: 41, height: 39 },
            is_visible: true,
        })
    );
    assert_eq!(
        world.entities[2],
        Entity::Ground(Ground {
            position: GridPoint { x: 60, y: 20 },
            scale: Ratio { numerator: 1, denominator: 1 },
            renderable_object: RenderableObject { texture: assets().ground },
            is_visible: true,
        })
    );
    assert_eq!(
        world.entities[3],
        Entity::Ground(Ground {
            position: GridPoint { x: 20, y: 60 },
            scale: Ratio { numerator: 1, denominator: 1 },
            renderable_object: RenderableObject { texture: assets().ground },
            is_visible: true,
        })
    );
    assert_eq!(
        world.entities[5],
        Entity::Enemy(Enemy {
            position: GridPoint { x: 60, y: 60 },
            scale: Ratio { numerator: 1, denominator: 1 },
            renderable_object: RenderableObject { texture: assets().enemy },
            should_delete: false,
            collidable_object: CollidableObject { width: 30, height: 31 },
            is_visible: true,
        })
    );
    assert_eq!(world.renderables, vec![vec![1, 2, 3, 4], vec![0, 5]]);
    assert_eq!(world.collidables, vec![1, 5]);
    assert_eq!(world.updatables, vec![0]);
    assert_eq!(world.player_handle, 0);
    assert_eq!(world.player.position, GridPoint { x: 20, y: 60 });
}

#[test]
fn player_starts_with_hand_gun_and_gun_axe() {
    let world = load_level(b"P\n", String::from("p"), &assets()).unwrap();
    let player = &world.player;
    assert_eq!(player.scale, Ratio { numerator: 1, denominator: 2 });
    assert_eq!(player.get_scale(), Ratio { numerator: 1, denominator: 2 });
    assert_eq!(player.get_object_type(), ObjectType::Player);
    assert!(!player.get_should_delete());
    assert!(player.is_visible());
    assert_eq!(player.current_gun_concept_index, 0);
    assert_eq!(player.gun_concepts.len(), 2);
    let hand_gun = &player.gun_concepts[0];
    assert_eq!(hand_gun.gun_strategy, GunBehavior::HandGun(HandGun { should_delete: false }));
    assert_eq!(hand_gun.gun_texture, texture(2));
    assert_eq!(hand_gun.selected_gun_texture, texture(3));
    assert_eq!(hand_gun.bullet_texture, texture(6));
    assert_eq!(hand_gun.gun_sound, 100);
    assert_eq!(hand_gun.bullet_sound, 101);
    assert_eq!(hand_gun.shots_taken, 0);
    assert!(hand_gun.guns.is_empty());
    assert!(!hand_gun.has_shot_bullet);
    let gun_axe = &player.gun_concepts[1];
    assert_eq!(gun_axe.gun_strategy, GunBehavior::GunAxe(GunAxe { should_delete: false }));
    assert_eq!(gun_axe.gun_texture, texture(4));
    assert_eq!(gun_axe.selected_gun_texture, texture(5));
    assert!(player.can_shoot_gun());
    assert!(!player.can_shoot_bullet());
    assert_eq!(
        player.get_renderable_object(),
        RenderableObject { texture: texture(1) }
    );
}

#[test]
fn two_player_cells_register_the_player_twice() {
    let world = load_level(b"P,P\n", String::from("pp"), &assets()).unwrap();
    assert_eq!(world.updatables, vec![0, 0]);
    assert_eq!(world.renderables, vec![vec![1, 2], vec![0, 0]]);
    assert_eq!(world.player.position, GridPoint { x: 60, y: 20 });
}

#[test]
fn quoted_cells_are_read_as_their_content() {
    let world = load_level(b"\"W\",\"E\"\n", String::from("q"), &assets()).unwrap();
    assert_eq!(world.entities[1].get_object_type(), ObjectType::Wall);
    assert_eq!(world.entities[3].get_object_type(), ObjectType::Enemy);
    let world = load_level(b"WW,w, W\n", String::from("near"), &assets()).unwrap();
    assert_eq!(world.entities.len(), 1);
}

#[test]
fn ragged_grid_is_malformed() {
    let loaded = load_level(b"W,W\nW\n", String::from("ragged"), &assets());
    assert_eq!(loaded.err(), Some(LevelError::Malformed));
}

#[test]
fn bytes_that_are_not_text_are_malformed() {
    let loaded = load_level(&[b'W', b',', 0xff, 0xfe, b'\n'], String::from("bin"), &assets());
    assert_eq!(loaded.err(), Some(LevelError::Malformed));
}

#[test]
fn empty_file_is_an_empty_level() {
    let world = load_level(b"", String::from("none"), &assets()).unwrap();
    assert_eq!(world.entities, vec![Entity::Player]);
    assert!(world.renderables.is_empty());
    assert!(world.is_valid());
}

#[test]
fn grid_with_too_many_rows_is_too_large() {
    let rows: Vec<Vec<Vec<u8>>> = vec![Vec::new(); 107_374_183];
    let built = build_level(&rows, String::from("tall"), &assets(), FpsCounter::starting_at(0));
    assert_eq!(built.err(), Some(LevelError::TooLarge));
}

#[test]
fn built_level_keeps_the_counter_it_was_given() {
    let rows = vec![vec![b"E".to_vec(), b"P".to_vec()]];
    let counter = FpsCounter::starting_at(77);
    let world = build_level(&rows, String::from("r"), &assets(), counter).unwrap();
    assert_eq!(world.fps_counter, counter);
    assert_eq!(world.entities.len(), 4);
    assert_eq!(world.renderables, vec![vec![1, 3], vec![2, 0]]);
    match world.entities[2] {
        Entity::Enemy(e) => {
            assert_eq!(e.get_collidable_object(), CollidableObject { width: 30, height: 31 });
            assert_eq!(
                e.get_renderable_object(),
                RenderableObject { texture: assets().enemy }
            );
        }
        other => panic!("slot 2 holds {:?}", other),
    }
}
