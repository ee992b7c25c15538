//! A thrown gun in flight.

use vstd::prelude::*;
use crate::bullet::Bullet;
use crate::collidable::{deleted_by, Collidable};
use crate::collidable_object::CollidableObject;
use crate::game_object::GameObject;
use crate::geometry::Ratio;
use crate::gun_behavior::GunBehavior;
use crate::gun_strategy::GunStrategy;
use crate::object_type::ObjectType;
use crate::renderable::Renderable;
use crate::renderable_object::{RenderableObject, Texture};

verus! {

/// Speed of a thrown gun, in units per second.
pub const PROJECTILE_VELOCITY_MAGNITUDE: u32 = 75;

/// Speed of a bullet, in units per second.
pub const BULLET_VELOCITY_MAGNITUDE: u32 = 200;

/// Turning rate of a thrown gun, in radians per second.
pub const GUN_ROTATIONAL_VELOCITY: u32 = 4;

/// How far ahead of the previous gun a chained gun appears, in units.
pub const CHAIN_REACH: u32 = 30;

/// The angle, in degrees, by which the first gun of a fork is placed off course.
pub const FORK_BEARING_LEFT: i32 = -45;

/// The angle, in degrees, by which the second gun of a fork is placed off course.
pub const FORK_BEARING_RIGHT: i32 = 45;

/// The scale of a thrown gun: one half.
pub open spec fn gun_scale_factor() -> Ratio {
    Ratio { numerator: 1, denominator: 2 }
}

/// The scale of a bullet: one thirty-second.
pub open spec fn bullet_scale_factor() -> Ratio {
    Ratio { numerator: 1, denominator: 32 }
}

/// Computes [`gun_scale_factor`].
pub fn gun_scale() -> (r: Ratio)
    ensures
        r == gun_scale_factor(),
{
    Ratio { numerator: 1, denominator: 2 }
}

/// Computes [`bullet_scale_factor`].
pub fn bullet_scale() -> (r: Ratio)
    ensures
        r == bullet_scale_factor(),
{
    Ratio { numerator: 1, denominator: 32 }
}

/// What a thrown gun starts from.
#[derive(Copy, Clone, PartialEq, Eq, Structural, Debug)]
pub enum Origin {
    /// The player: the gun starts at the player's position with the player's
    /// rotation and flies towards the pointer.
    Player,
    /// The gun stored under this handle: the new gun takes over its rotation
    /// and flies along it.
    Gun(usize),
}

/// Where a gun starts and how fast, in whole units.
///
/// The host turns this into a pose: the start is `reach` units from the
/// origin, in the direction of the origin's rotation turned by `bearing`
/// degrees, and the gun moves at `speed` units per second.
#[derive(Copy, Clone, PartialEq, Eq, Structural, Debug)]
pub struct Launch {
    pub origin: Origin,
    pub bearing: i32,
    pub reach: u32,
    pub speed: u32,
}

#[derive(Copy, Clone, PartialEq, Eq, Structural, Debug)]
pub struct Gun {
    pub launch: Launch,
    pub scale: Ratio,
    pub renderable_object: RenderableObject,
    pub selected_renderable_object: RenderableObject,
    pub collidable_object: CollidableObject,
    pub gun_texture: Texture,
    pub selected_gun_texture: Texture,
    pub gun_sound: usize,
    pub gun_behavior: GunBehavior,
    pub is_selected: bool,
    pub depth: usize,
    pub is_visible: bool,
}

/// The gun that continues a chain: it starts [`CHAIN_REACH`] units from the
/// gun `previous` stored under `handle`, `bearing` degrees off its course,
/// one level deeper, selected, with an unmarked copy of its rules.
pub open spec fn chain_gun(previous: Gun, handle: usize, bearing: i32) -> Gun {
    Gun {
        launch: Launch {
            origin: Origin::Gun(handle),
            bearing,
            reach: CHAIN_REACH,
            speed: PROJECTILE_VELOCITY_MAGNITUDE,
        },
        scale: gun_scale_factor(),
        renderable_object: RenderableObject { texture: previous.gun_texture },
        selected_renderable_object: RenderableObject { texture: previous.selected_gun_texture },
        collidable_object: CollidableObject::of_texture(previous.gun_texture),
        gun_texture: previous.gun_texture,
        selected_gun_texture: previous.selected_gun_texture,
        gun_sound: previous.gun_sound,
        gun_behavior: previous.gun_behavior.fresh(),
        is_selected: true,
        depth: (previous.depth + 1) as usize,
        is_visible: true,
    }
}

/// The guns with which a weapon of kind `kind` continues a chain: a shot gun
/// forks to both sides, every other kind goes straight on.
pub open spec fn chain_spawn(kind: ObjectType, previous: Gun, handle: usize) -> Seq<Gun> {
    if kind == ObjectType::ShotGun {
        seq![
            chain_gun(previous, handle, FORK_BEARING_LEFT),
            chain_gun(previous, handle, FORK_BEARING_RIGHT),
        ]
    } else {
        seq![chain_gun(previous, handle, 0)]
    }
}

/// Chained spawn: a weapon that does not fork continues its chain with one
/// gun, which starts [`CHAIN_REACH`] units straight ahead of the previous
/// gun, takes over its rotation, flies along it at
/// [`PROJECTILE_VELOCITY_MAGNITUDE`] units per second, and is one level
/// deeper. A shot gun places two such guns, one to each side of the course.
pub proof fn lemma_chain_spawn_launch(kind: ObjectType, previous: Gun, handle: usize)
    requires
        kind.is_gun(),
    ensures
        kind != ObjectType::ShotGun ==> chain_spawn(kind, previous, handle).len() == 1,
        kind == ObjectType::ShotGun ==> chain_spawn(kind, previous, handle).len() == 2,
        kind == ObjectType::ShotGun ==> chain_spawn(kind, previous, handle)[0].launch.bearing == -45
            && chain_spawn(kind, previous, handle)[1].launch.bearing == 45,
        kind != ObjectType::ShotGun ==> chain_spawn(kind, previous, handle)[0].launch.bearing == 0,
        forall|i: int|
            0 <= i < chain_spawn(kind, previous, handle).len() ==> {
                let gun = #[trigger] chain_spawn(kind, previous, handle)[i];
                &&& gun.launch.origin == Origin::Gun(handle)
                &&& gun.launch.reach == 30
                &&& gun.launch.speed == 75
                &&& previous.depth < usize::MAX ==> gun.depth == previous.depth + 1
                &&& gun.is_selected
                &&& gun.kind() == previous.kind()
                &&& !gun.marked()
            },
{
}

/// Computes [`chain_gun`].
pub fn make_chain_gun(previous: &Gun, handle: usize, bearing: i32) -> (r: Gun)
    requires
        previous.depth < usize::MAX,
    ensures
        r == chain_gun(*previous, handle, bearing),
{
    Gun {
        launch: Launch {
            origin: Origin::Gun(handle),
            bearing,
            reach: CHAIN_REACH,
            speed: PROJECTILE_VELOCITY_MAGNITUDE,
        },
        scale: gun_scale(),
        renderable_object: RenderableObject { texture: previous.gun_texture },
        selected_renderable_object: RenderableObject { texture: previous.selected_gun_texture },
        collidable_object: CollidableObject::from_texture(&previous.gun_texture),
        gun_texture: previous.gun_texture,
        selected_gun_texture: previous.selected_gun_texture,
        gun_sound: previous.gun_sound,
        gun_behavior: previous.gun_behavior.clone_state(),
        is_selected: true,
        depth: previous.depth + 1,
        is_visible: true,
    }
}

impl GameObject for Gun {
    open spec fn marked(&self) -> bool {
        self.gun_behavior.marked()
    }

    open spec fn kind(&self) -> ObjectType {
        self.gun_behavior.kind()
    }

    open spec fn deletable(&self) -> bool {
        true
    }

    open spec fn scale_factor(&self) -> Ratio {
        self.scale
    }

    fn get_scale(&self) -> (r: Ratio) {
        self.scale
    }

    fn get_should_delete(&self) -> (r: bool) {
        self.gun_behavior.get_should_delete()
    }

    fn set_should_delete(&mut self, should_delete: bool)
        ensures
            *final(self) == old(self).with_mark(should_delete),
    {
        self.gun_behavior.set_should_delete(should_delete);
    }

    fn get_object_type(&self) -> (r: ObjectType) {
        self.gun_behavior.get_object_type()
    }
}

impl Renderable for Gun {
    open spec fn appearance(&self) -> RenderableObject {
        if self.is_selected {
            self.selected_renderable_object
        } else {
            self.renderable_object
        }
    }

    open spec fn visible(&self) -> bool {
        self.is_visible
    }

    fn get_renderable_object(&self) -> (r: RenderableObject) {
        if self.is_selected {
            self.selected_renderable_object
        } else {
            self.renderable_object
        }
    }

    fn is_visible(&self) -> (r: bool) {
        self.is_visible
    }
}

impl Collidable for Gun {
    open spec fn footprint(&self) -> CollidableObject {
        self.collidable_object
    }

    fn get_collidable_object(&self) -> (r: CollidableObject) {
        self.collidable_object
    }

    fn collide(&mut self, other_object_type: ObjectType)
        ensures
            *final(self) == old(self).with_mark(
                old(self).marked() || deleted_by(old(self).kind(), other_object_type),
            ),
    {
        self.gun_behavior.collide(other_object_type);
    }
}

impl Gun {
    /// The same gun with the deletion flag of its rules set to `marked`.
    pub open spec fn with_mark(self, marked: bool) -> Gun {
        Gun { gun_behavior: self.gun_behavior.with_mark(marked), ..self }
    }

    /// The same gun with its highlight set to `selected`.
    pub open spec fn with_selected(self, selected: bool) -> Gun {
        Gun { is_selected: selected, ..self }
    }

    /// The bullet this gun turns into: it starts where the gun stored under
    /// `handle` is, drawn with `bullet_texture`.
    pub fn shoot_bullet(&self, handle: usize, bullet_texture: &Texture) -> (b: Bullet)
        ensures
            b == Bullet::fired_from(handle, *bullet_texture),
    {
        Bullet {
            source: handle,
            scale: bullet_scale(),
            renderable_object: RenderableObject { texture: *bullet_texture },
            speed: BULLET_VELOCITY_MAGNITUDE,
            should_delete: false,
            collidable_object: CollidableObject::from_texture(bullet_texture),
            is_visible: true,
        }
    }

    /// The guns that continue the chain from this gun, stored under `handle`.
    pub fn shoot_gun(&self, handle: usize) -> (r: Vec<Gun>)
        requires
            self.depth < usize::MAX,
        ensures
            r@ == chain_spawn(self.kind(), *self, handle),
    {
        self.gun_behavior.shoot_gun(self, handle)
    }
}

} // verus!
