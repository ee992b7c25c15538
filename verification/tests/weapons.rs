use piston_shooty::bullet::Bullet;
use piston_shooty::collidable::{is_deleted_by, Collidable};
use piston_shooty::collidable_object::CollidableObject;
use piston_shooty::config::{Config, GunConfig};
use piston_shooty::entity::Entity;
use piston_shooty::game_object::GameObject;
use piston_shooty::geometry::Ratio;
use piston_shooty::gun::{
    Gun, Launch, Origin, BULLET_VELOCITY_MAGNITUDE, CHAIN_REACH, FORK_BEARING_LEFT,
    FORK_BEARING_RIGHT, PROJECTILE_VELOCITY_MAGNITUDE,
};
use piston_shooty::gun_axe::GunAxe;
use piston_shooty::gun_behavior::GunBehavior;
use piston_shooty::gun_strategy::GunStrategy;
use piston_shooty::gun_strategy_util::GunStrategyUtil;
use piston_shooty::hand_gun::HandGun;
use piston_shooty::meta_gun::MetaGun;
use piston_shooty::object_type::ObjectType;
use piston_shooty::renderable::Renderable;
use piston_shooty::renderable_object::{RenderableObject, Texture};
use piston_shooty::shot_gun::ShotGun;
use piston_shooty::world_req::{WorldReq, WorldRequestType};

fn plain() -> Texture {
    Texture { id: 2, width: 64, height: 24 }
}

fn bright() -> Texture {
    Texture { id: 3, width: 66, height: 26 }
}

fn bullet_texture() -> Texture {
    Texture { id: 6, width: 128, height: 128 }
}

fn weapon(strategy: GunBehavior) -> MetaGun {
    MetaGun::new(plain(), bright(), 40, bullet_texture(), 41, strategy)
}

fn hand_gun() -> GunBehavior {
    GunBehavior::HandGun(HandGun { should_delete: false })
}

fn gun_axe() -> GunBehavior {
    GunBehavior::GunAxe(GunAxe { should_delete: false })
}

fn shot_gun() -> GunBehavior {
    GunBehavior::ShotGun(ShotGun { should_delete: false })
}

fn gun_in(arena: &[Entity], handle: usize) -> Gun {
    match arena[handle] {
        Entity::Gun(g) => g,
        other => panic!("slot {} holds {:?}", handle, other),
    }
}

#[test]
fn first_gun_starts_at_the_player() {
    let mut arena = vec![Entity::Player];
    let mut weapon = weapon(hand_gun());
    let fired = weapon.shoot_gun(&mut arena);
    let gun = gun_in(&arena, 1);
    assert_eq!(
        gun.launch,
        Launch { origin: Origin::Player, bearing: 0, reach: 0, speed: 75 }
    );
    assert_eq!(gun.depth, 0);
    assert!(gun.is_selected);
    assert!(gun.is_visible);
    assert_eq!(gun.scale, Ratio { numerator: 1, denominator: 2 });
    assert_eq!(gun.collidable_object, CollidableObject { width: 64, height: 24 });
    assert_eq!(gun.renderable_object, RenderableObject { texture: plain() });
    assert_eq!(gun.selected_renderable_object, RenderableObject { texture: bright() });
    assert_eq!(gun.gun_sound, 40);
    assert_eq!(gun.gun_behavior, hand_gun());
    assert_eq!(fired.sounds, vec![40]);
    assert_eq!(weapon.shots_taken, 1);
    assert_eq!(weapon.guns, vec![1]);
}

#[test]
fn chained_gun_starts_thirty_units_ahead_of_the_previous_gun() {
    let mut arena = vec![Entity::Player];
    let mut weapon = weapon(gun_axe());
    weapon.shoot_gun(&mut arena);
    weapon.shoot_gun(&mut arena);
    let first = gun_in(&arena, 1);
    let second = gun_in(&arena, 2);
    assert_eq!(
        second.launch,
        Launch { origin: Origin::Gun(1), bearing: 0, reach: 30, speed: 75 }
    );
    assert_eq!(second.depth, 1);
    assert!(second.is_selected);
    assert!(!first.is_selected);
    assert_eq!(second.get_object_type(), ObjectType::GunAxe);
    assert_eq!(CHAIN_REACH, 30);
    assert_eq!(PROJECTILE_VELOCITY_MAGNITUDE, 75);
}

#[test]
fn shot_gun_forks_into_two_guns_per_chained_shot() {
    let mut arena = vec![Entity::Player];
    let mut weapon = weapon(shot_gun());
    let first = weapon.shoot_gun(&mut arena);
    assert_eq!(first.requests.len(), 2);
    let second = weapon.shoot_gun(&mut arena);
    assert_eq!(second.requests.len(), 4);
    assert_eq!(second.sounds, vec![40]);
    assert_eq!(weapon.shots_taken, 2);
    assert_eq!(weapon.guns, vec![1, 2, 3]);
    let left = gun_in(&arena, 2);
    let right = gun_in(&arena, 3);
    assert_eq!(
        left.launch,
        Launch { origin: Origin::Gun(1), bearing: -45, reach: 30, speed: 75 }
    );
    assert_eq!(
        right.launch,
        Launch { origin: Origin::Gun(1), bearing: 45, reach: 30, speed: 75 }
    );
    assert_eq!(FORK_BEARING_LEFT, -45);
    assert_eq!(FORK_BEARING_RIGHT, 45);
    assert_eq!(left.depth, 1);
    assert_eq!(right.depth, 1);
    let third = weapon.shoot_gun(&mut arena);
    assert_eq!(third.requests.len(), 4);
    assert_eq!(gun_in(&arena, 4).launch.origin, Origin::Gun(3));
    assert_eq!(gun_in(&arena, 5).launch.origin, Origin::Gun(3));
    assert_eq!(gun_in(&arena, 4).depth, 2);
}

#[test]
fn depth_limit_holds_across_pruning_and_selection() {
    let mut arena = vec![Entity::Player];
    let mut weapon = weapon(gun_axe());
    assert!(weapon.has_gun_depth());
    assert_eq!(weapon.get_gun_depth(), 2);
    assert_eq!(weapon.shots_remaining(), Some(2));
    weapon.shoot_gun(&mut arena);
    assert_eq!(weapon.shots_remaining(), Some(1));
    if let Entity::Gun(g) = &mut arena[1] {
        g.set_should_delete(true);
    }
    weapon.update(&mut arena);
    assert!(weapon.guns.is_empty());
    weapon.set_selected(&mut arena, true);
    weapon.shoot_gun(&mut arena);
    assert_eq!(gun_in(&arena, 2).launch.origin, Origin::Player);
    assert_eq!(gun_in(&arena, 2).depth, 0);
    assert_eq!(weapon.shots_taken, 2);
    assert_eq!(weapon.shots_remaining(), Some(0));
    for _ in 0..5 {
        weapon.update(&mut arena);
        weapon.set_selected(&mut arena, false);
        assert!(!weapon.can_shoot_gun());
        assert!(weapon.shoot_gun(&mut arena).requests.is_empty());
    }
    assert_eq!(weapon.shots_taken, 2);
    assert_eq!(arena.len(), 3);
}

#[test]
fn hand_gun_has_no_depth_limit() {
    let mut arena = vec![Entity::Player];
    let mut weapon = weapon(hand_gun());
    assert!(!weapon.has_gun_depth());
    assert_eq!(weapon.get_gun_depth(), 0);
    assert_eq!(weapon.shots_remaining(), None);
    for shot in 0..20 {
        assert!(weapon.can_shoot_gun());
        assert_eq!(weapon.shoot_gun(&mut arena).requests.len(), 2);
        assert_eq!(gun_in(&arena, shot + 1).depth, shot);
    }
    assert_eq!(weapon.shots_taken, 20);
}

#[test]
fn volley_turns_every_gun_in_flight_into_a_bullet() {
    let mut arena = vec![Entity::Player];
    let mut weapon = weapon(shot_gun());
    weapon.shoot_gun(&mut arena);
    weapon.shoot_gun(&mut arena);
    assert!(weapon.can_shoot_bullet());
    assert_eq!(weapon.bullets_remaining(), 1);
    let volley = weapon.shoot_bullets(&mut arena);
    assert_eq!(weapon.bullets_remaining(), 0);
    assert_eq!(volley.sounds, vec![41, 41, 41]);
    let expected: Vec<WorldReq> = vec![
        WorldReq::new_dynamic_renderable(4),
        WorldReq::new_updatable(4),
        WorldReq::new_dynamic_renderable(5),
        WorldReq::new_updatable(5),
        WorldReq::new_dynamic_renderable(6),
        WorldReq::new_updatable(6),
    ];
    assert_eq!(volley.requests, expected);
    for (i, source) in [1usize, 2, 3].iter().enumerate() {
        assert_eq!(
            arena[4 + i],
            Entity::Bullet(Bullet {
                source: *source,
                scale: Ratio { numerator: 1, denominator: 32 },
                renderable_object: RenderableObject { texture: bullet_texture() },
                speed: 200,
                should_delete: false,
                collidable_object: CollidableObject { width: 128, height: 128 },
                is_visible: true,
            })
        );
    }
    assert_eq!(BULLET_VELOCITY_MAGNITUDE, 200);
    assert_eq!(weapon.guns, vec![1, 2, 3]);
    assert!(!weapon.can_shoot_gun());
    assert!(!weapon.can_shoot_bullet());
}

#[test]
fn volley_without_guns_in_flight_does_nothing() {
    let mut arena = vec![Entity::Player];
    let mut weapon = weapon(hand_gun());
    assert!(!weapon.has_guns_in_play());
    assert!(!weapon.can_shoot_bullet());
    let volley = weapon.shoot_bullets(&mut arena);
    assert!(volley.requests.is_empty());
    assert!(volley.sounds.is_empty());
    assert!(!weapon.has_shot_bullet);
    assert!(weapon.can_shoot_gun());
}

#[test]
fn repeated_bullet_triggers_after_the_volley_are_no_ops() {
    let mut arena = vec![Entity::Player];
    let mut weapon = weapon(hand_gun());
    weapon.shoot_gun(&mut arena);
    weapon.shoot_bullets(&mut arena);
    let before = arena.clone();
    for _ in 0..4 {
        let volley = weapon.shoot_bullets(&mut arena);
        assert!(volley.requests.is_empty());
        assert!(volley.sounds.is_empty());
        weapon.update(&mut arena);
        weapon.set_selected(&mut arena, true);
    }
    assert!(weapon.has_shot_bullet);
    assert_eq!(arena.len(), before.len());
}

#[test]
fn update_prunes_deleted_guns_and_highlights_the_last_one_left() {
    let mut arena = vec![Entity::Player];
    let mut weapon = weapon(hand_gun());
    weapon.shoot_gun(&mut arena);
    weapon.shoot_gun(&mut arena);
    weapon.shoot_gun(&mut arena);
    if let Entity::Gun(g) = &mut arena[3] {
        g.collide(ObjectType::Wall);
    }
    if let Entity::Gun(g) = &mut arena[1] {
        g.collide(ObjectType::Wall);
    }
    weapon.update(&mut arena);
    assert_eq!(weapon.guns, vec![2]);
    assert!(gun_in(&arena, 2).is_selected);
    assert!(weapon.is_valid(&arena));
    weapon.set_selected(&mut arena, false);
    assert!(!weapon.is_selected);
    assert!(!gun_in(&arena, 2).is_selected);
    assert_eq!(
        gun_in(&arena, 2).get_renderable_object(),
        RenderableObject { texture: plain() }
    );
    weapon.update(&mut arena);
    assert!(gun_in(&arena, 2).is_selected);
    assert_eq!(
        gun_in(&arena, 2).get_renderable_object(),
        RenderableObject { texture: bright() }
    );
}

#[test]
fn strategies_report_their_kind_and_depth() {
    let hand = HandGun { should_delete: false };
    let axe = GunAxe { should_delete: false };
    let shot = ShotGun { should_delete: false };
    assert_eq!(hand.get_object_type(), ObjectType::HandGun);
    assert_eq!(axe.get_object_type(), ObjectType::GunAxe);
    assert_eq!(shot.get_object_type(), ObjectType::ShotGun);
    assert!(!hand.has_gun_depth());
    assert!(axe.has_gun_depth());
    assert!(!shot.has_gun_depth());
    assert_eq!(hand.get_gun_depth(), 0);
    assert_eq!(axe.get_gun_depth(), 2);
    assert_eq!(shot.get_gun_depth(), 0);
    assert_eq!(Config::default().gunaxe_gun_config, GunConfig { gun_depth: 2 });
    assert_eq!(GunConfig::default().gun_depth, 2);
}

#[test]
fn only_a_wall_deletes_a_thrown_gun() {
    let kinds = [
        ObjectType::Bullet,
        ObjectType::HandGun,
        ObjectType::GunAxe,
        ObjectType::ShotGun,
        ObjectType::Enemy,
        ObjectType::Player,
        ObjectType::Ground,
    ];
    for other in kinds {
        let mut hand = HandGun { should_delete: false };
        GunStrategy::collide(&mut hand, other);
        assert!(!hand.get_should_delete());
        let mut behavior = shot_gun();
        GunStrategy::collide(&mut behavior, other);
        assert!(!behavior.get_should_delete());
    }
    let mut axe = GunAxe { should_delete: false };
    GunStrategy::collide(&mut axe, ObjectType::Wall);
    assert!(axe.get_should_delete());
    let mut behavior = hand_gun();
    GunStrategy::collide(&mut behavior, ObjectType::Wall);
    assert!(behavior.get_should_delete());
    assert_eq!(behavior.get_object_type(), ObjectType::HandGun);
}

#[test]
fn new_strategy_is_an_unmarked_copy_of_the_same_kind() {
    let marked = GunAxe { should_delete: true };
    assert_eq!(marked.new_gun_strategy(), GunAxe { should_delete: false });
    let behavior = GunBehavior::ShotGun(ShotGun { should_delete: true });
    assert_eq!(behavior.new_gun_strategy(), shot_gun());
    assert_eq!(behavior.clone_state(), shot_gun());
    let weapon = weapon(GunBehavior::HandGun(HandGun { should_delete: true }));
    assert_eq!(weapon.new_gun_strategy(), hand_gun());
}

#[test]
fn reaction_table_is_exact() {
    let all = [
        ObjectType::Wall,
        ObjectType::Bullet,
        ObjectType::HandGun,
        ObjectType::GunAxe,
        ObjectType::ShotGun,
        ObjectType::Enemy,
        ObjectType::Player,
        ObjectType::Ground,
    ];
    for own in all {
        for other in all {
            let expected = match own {
                ObjectType::Bullet => other == ObjectType::Wall || other == ObjectType::Enemy,
                ObjectType::Enemy => other == ObjectType::Bullet || other == ObjectType::GunAxe,
                ObjectType::HandGun | ObjectType::GunAxe | ObjectType::ShotGun => {
                    other == ObjectType::Wall
                }
                ObjectType::Wall | ObjectType::Ground | ObjectType::Player => false,
            };
            assert_eq!(is_deleted_by(own, other), expected, "{:?} touched by {:?}", own, other);
        }
    }
}

#[test]
fn requests_for_guns_come_in_pairs() {
    let util = GunStrategyUtil {};
    let requests = util.world_requests_for_guns(&vec![7, 9]);
    assert_eq!(requests.len(), 4);
    assert_eq!(
        requests[0],
        WorldReq {
            renderable: Some(7),
            updatable: None,
            collidable: Some(7),
            req_type: WorldRequestType::AddDynamicRenderable
        }
    );
    assert_eq!(
        requests[1],
        WorldReq {
            renderable: None,
            updatable: Some(7),
            collidable: None,
            req_type: WorldRequestType::AddUpdatable
        }
    );
    assert_eq!(requests[2], WorldReq::new_dynamic_renderable(9));
    assert_eq!(requests[3], WorldReq::new_updatable(9));
    assert!(util.world_requests_for_guns(&Vec::new()).is_empty());
    let weapon = weapon(hand_gun());
    assert_eq!(
        weapon.world_requests_for_bullet(5),
        vec![WorldReq::new_dynamic_renderable(5), WorldReq::new_updatable(5)]
    );
    let first = util.shoot_gun_from_player(&weapon);
    assert_eq!(first.len(), 1);
    assert_eq!(first[0].launch.origin, Origin::Player);
}

#[test]
fn gun_shoots_bullet_from_its_own_slot() {
    let mut arena = vec![Entity::Player];
    let mut weapon = weapon(hand_gun());
    weapon.shoot_gun(&mut arena);
    let gun = gun_in(&arena, 1);
    let bullet = gun.shoot_bullet(1, &bullet_texture());
    assert_eq!(bullet.source, 1);
    assert_eq!(bullet.speed, 200);
    assert_eq!(bullet.get_scale(), Ratio { numerator: 1, denominator: 32 });
    assert_eq!(bullet.get_object_type(), ObjectType::Bullet);
    assert!(!bullet.get_should_delete());
    let next = gun.shoot_gun(1);
    assert_eq!(next.len(), 1);
    assert_eq!(next[0].depth, 1);
}
