//! Loading a level from its grid file.
//!
//! A level is a grid of comma-separated cells, one record per row: `W` is a
//! wall, `P` the player's spawn on walkable ground, `E` an enemy on walkable
//! ground, `_` walkable ground; any other cell is empty.

use vstd::prelude::*;
use crate::collidable_object::CollidableObject;
use crate::enemy::Enemy;
use crate::entity::Entity;
use crate::fps_counter::FpsCounter;
use crate::geometry::{cell_center, center_of_cell, GridPoint, Ratio, MAX_CELL_INDEX};
use crate::ground::Ground;
use crate::gun_axe::GunAxe;
use crate::gun_behavior::GunBehavior;
use crate::hand_gun::HandGun;
use crate::meta_gun::{MetaGun, MetaGunView};
use crate::player::{Player, PlayerView};
use crate::renderable_object::{RenderableObject, Texture};
use crate::wall::Wall;
use crate::world::{
    layered, GameEndedState, World, WorldView, ENEMY_LAYER, GROUND_LAYER, PLAYER_LAYER, WALL_LAYER,
};

verus! {

/// The cell that holds a wall: `W`.
pub const WALL_CELL: u8 = 87;

/// The cell on which the player starts: `P`.
pub const PLAYER_CELL: u8 = 80;

/// The cell on which an enemy stands: `E`.
pub const ENEMY_CELL: u8 = 69;

/// The cell of walkable ground: `_`.
pub const GROUND_CELL: u8 = 95;

/// The textures and sounds a level is built with.
#[derive(Copy, Clone, PartialEq, Eq, Structural, Debug)]
pub struct LevelAssets {
    pub player: Texture,
    pub player_selected: Texture,
    pub hand_gun: Texture,
    pub hand_gun_selected: Texture,
    pub gun_axe: Texture,
    pub gun_axe_selected: Texture,
    pub bullet: Texture,
    pub wall: Texture,
    pub enemy: Texture,
    pub ground: Texture,
    pub gun_sound: usize,
    pub bullet_sound: usize,
}

/// Why a level could not be loaded.
#[derive(Copy, Clone, PartialEq, Eq, Structural, Debug)]
pub enum LevelError {
    /// The file is not a grid of comma-separated cells.
    Malformed,
    /// The grid has a row or a column whose cells would lie off the pixel
    /// grid.
    TooLarge,
}

#[verifier::external_type_specification]
#[verifier::external_body]
pub struct ExCsvError(csv::Error);

/// What the `csv` crate reads from `bytes` with a reader that takes no
/// header row: the records in order, each as its fields in order, each field
/// as its bytes; `None` where the reader reports an error.
pub uninterp spec fn csv_records(bytes: Seq<u8>) -> Option<Seq<Seq<Seq<u8>>>>;

/// The rows as sequences of cells, each cell as its bytes.
pub open spec fn cells_of(rows: Vec<Vec<Vec<u8>>>) -> Seq<Seq<Seq<u8>>> {
    rows@.map_values(|row: Vec<Vec<u8>>| row@.map_values(|cell: Vec<u8>| cell@))
}

/// Reads `bytes` with `csv::ReaderBuilder::new().has_headers(false)` and
/// walks `Reader::records`. The result is [`csv_records`] of the bytes: the
/// records where every one was read, and the reader's first error where one
/// was not. Nothing more is claimed of what the reader accepts.
#[verifier::external_body]
fn read_records(bytes: &[u8]) -> (r: Result<Vec<Vec<Vec<u8>>>, csv::Error>)
    ensures
        match r {
            Ok(rows) => csv_records(bytes@) == Some(cells_of(rows)),
            Err(_) => csv_records(bytes@) is None,
        },
{
    let mut reader = csv::ReaderBuilder::new().has_headers(false).from_reader(bytes);
    let mut rows: Vec<Vec<Vec<u8>>> = Vec::new();
    for record in reader.records() {
        rows.push(record?.iter().map(|cell| cell.as_bytes().to_vec()).collect());
    }
    Ok(rows)
}

/// The scale of the player: one half.
pub open spec fn player_scale_factor() -> Ratio {
    Ratio { numerator: 1, denominator: 2 }
}

/// The scale of walls, enemies and ground: one.
pub open spec fn unit_scale_factor() -> Ratio {
    Ratio { numerator: 1, denominator: 1 }
}

/// A weapon controller at the start of a level attempt.
pub open spec fn fresh_concept(
    gun_texture: Texture,
    selected_gun_texture: Texture,
    gun_strategy: GunBehavior,
    assets: LevelAssets,
) -> MetaGunView {
    MetaGunView {
        gun_texture,
        selected_gun_texture,
        gun_sound: assets.gun_sound,
        bullet_texture: assets.bullet,
        bullet_sound: assets.bullet_sound,
        gun_strategy,
        shots_taken: 0,
        guns: Seq::empty(),
        has_shot_bullet: false,
        is_selected: false,
    }
}

/// The player a level starts with: at the origin of the pixel grid, with
/// the hand gun and the gun axe, the hand gun current.
pub open spec fn starting_player(assets: LevelAssets) -> PlayerView {
    PlayerView {
        position: GridPoint { x: 0, y: 0 },
        scale: player_scale_factor(),
        renderable_object: RenderableObject { texture: assets.player },
        selected_renderable_object: RenderableObject { texture: assets.player_selected },
        gun_concepts: seq![
            fresh_concept(
                assets.hand_gun,
                assets.hand_gun_selected,
                GunBehavior::HandGun(HandGun { should_delete: false }),
                assets,
            ),
            fresh_concept(
                assets.gun_axe,
                assets.gun_axe_selected,
                GunBehavior::GunAxe(GunAxe { should_delete: false }),
                assets,
            ),
        ],
        current_gun_concept_index: 0,
        is_visible: true,
    }
}

/// The world before any cell was read.
pub open spec fn empty_level(name: Seq<char>, assets: LevelAssets, fps_counter: FpsCounter) -> WorldView {
    WorldView {
        entities: seq![Entity::Player],
        renderables: Seq::empty(),
        collidables: Seq::empty(),
        updatables: Seq::empty(),
        game_ended_state: GameEndedState { game_ended: false, won: false },
        player: starting_player(assets),
        player_handle: 0,
        should_display_level_name: true,
        name,
        fps_counter,
    }
}

/// The ground tile at `position`.
pub open spec fn ground_at(position: GridPoint, assets: LevelAssets) -> Ground {
    Ground {
        position,
        scale: unit_scale_factor(),
        renderable_object: RenderableObject { texture: assets.ground },
        is_visible: true,
    }
}

/// The wall at `position`.
pub open spec fn wall_at(position: GridPoint, assets: LevelAssets) -> Wall {
    Wall {
        position,
        scale: unit_scale_factor(),
        renderable_object: RenderableObject { texture: assets.wall },
        collidable_object: CollidableObject::of_texture(assets.wall),
        is_visible: true,
    }
}

/// The enemy at `position`.
pub open spec fn enemy_at(position: GridPoint, assets: LevelAssets) -> Enemy {
    Enemy {
        position,
        scale: unit_scale_factor(),
        renderable_object: RenderableObject { texture: assets.enemy },
        should_delete: false,
        collidable_object: CollidableObject::of_texture(assets.enemy),
        is_visible: true,
    }
}

/// `world` with `entity` in a new slot, drawn in the layer `layer`.
pub open spec fn with_drawn(world: WorldView, entity: Entity, layer: int) -> WorldView {
    WorldView {
        entities: world.entities.push(entity),
        renderables: layered(world.renderables, world.entities.len() as usize, layer),
        ..world
    }
}

/// `world` with `entity` in a new slot, drawn in the layer `layer` and
/// registered for collisions.
pub open spec fn with_solid(world: WorldView, entity: Entity, layer: int) -> WorldView {
    let drawn = with_drawn(world, entity, layer);
    WorldView { collidables: drawn.collidables.push(world.entities.len() as usize), ..drawn }
}

/// `world` with the player standing at `position`, drawn and stepped once
/// more.
pub open spec fn with_player_at(world: WorldView, position: GridPoint) -> WorldView {
    WorldView {
        player: PlayerView { position, ..world.player },
        renderables: layered(world.renderables, world.player_handle, PLAYER_LAYER as int),
        updatables: world.updatables.push(world.player_handle),
        ..world
    }
}

/// `world` after the cell `cell` at `position` was read.
pub open spec fn with_cell(
    world: WorldView,
    cell: Seq<u8>,
    position: GridPoint,
    assets: LevelAssets,
) -> WorldView {
    let ground = Entity::Ground(ground_at(position, assets));
    if cell == seq![WALL_CELL] {
        with_solid(world, Entity::Wall(wall_at(position, assets)), WALL_LAYER as int)
    } else if cell == seq![PLAYER_CELL] {
        with_player_at(with_drawn(world, ground, GROUND_LAYER as int), position)
    } else if cell == seq![ENEMY_CELL] {
        with_solid(
            with_drawn(world, ground, GROUND_LAYER as int),
            Entity::Enemy(enemy_at(position, assets)),
            ENEMY_LAYER as int,
        )
    } else if cell == seq![GROUND_CELL] {
        with_drawn(world, ground, GROUND_LAYER as int)
    } else {
        world
    }
}

/// `world` after the cells of the row `row` were read from left to right.
pub open spec fn with_row(
    world: WorldView,
    cells: Seq<Seq<u8>>,
    row: int,
    assets: LevelAssets,
) -> WorldView
    decreases cells.len(),
{
    if cells.len() == 0 {
        world
    } else {
        with_cell(
            with_row(world, cells.drop_last(), row, assets),
            cells.last(),
            cell_center(cells.len() - 1, row),
            assets,
        )
    }
}

/// `world` after the rows were read from top to bottom.
pub open spec fn with_rows(world: WorldView, rows: Seq<Seq<Seq<u8>>>, assets: LevelAssets) -> WorldView
    decreases rows.len(),
{
    if rows.len() == 0 {
        world
    } else {
        with_row(with_rows(world, rows.drop_last(), assets), rows.last(), rows.len() - 1, assets)
    }
}

/// Whether every cell of the grid has its centre on the pixel grid.
pub open spec fn fits(rows: Seq<Seq<Seq<u8>>>) -> bool {
    &&& rows.len() <= MAX_CELL_INDEX + 1
    &&& forall|r: int| 0 <= r < rows.len() ==> (#[trigger] rows[r]).len() <= MAX_CELL_INDEX + 1
}

/// The world of the level with the grid `rows`.
pub open spec fn level_world(
    rows: Seq<Seq<Seq<u8>>>,
    name: Seq<char>,
    assets: LevelAssets,
    fps_counter: FpsCounter,
) -> WorldView {
    with_rows(empty_level(name, assets, fps_counter), rows, assets)
}

/// Whether no cell of the row holds an enemy.
pub open spec fn row_without_enemy(cells: Seq<Seq<u8>>) -> bool {
    forall|c: int| 0 <= c < cells.len() ==> #[trigger] cells[c] != seq![ENEMY_CELL]
}

/// Whether no cell of the grid holds an enemy.
pub open spec fn grid_without_enemy(rows: Seq<Seq<Seq<u8>>>) -> bool {
    forall|r: int| 0 <= r < rows.len() ==> row_without_enemy(#[trigger] rows[r])
}

/// Whether no slot of the arena holds an enemy.
pub open spec fn arena_without_enemy(arena: Seq<Entity>) -> bool {
    forall|h: int| 0 <= h < arena.len() ==> !(#[trigger] arena[h] is Enemy)
}

/// A well-formed world whose arena holds no enemy is victorious.
pub proof fn lemma_no_enemy_is_victory(world: WorldView)
    requires
        world.wf(),
        arena_without_enemy(world.entities),
    ensures
        world.is_victorious(),
{
    if world.renderables.len() > ENEMY_LAYER {
        let layer = world.renderables[ENEMY_LAYER as int];
        assert(crate::handles::in_range(layer, world.entities.len()));
        assert forall|i: int| 0 <= i < layer.len() implies world.kind_of(#[trigger] layer[i])
            != crate::object_type::ObjectType::Enemy by {
            let h = layer[i] as int;
            assert(!(world.entities[h] is Enemy));
        }
    }
}

/// Puts `entity` into a new slot of `world` and draws it in the layer
/// `layer`.
fn add_drawn(world: &mut World, entity: Entity, layer: usize) -> (handle: usize)
    requires
        old(world)@.wf(),
        layer < usize::MAX,
    ensures
        final(world)@ == with_drawn(old(world)@, entity, layer as int),
        final(world)@.wf(),
        handle == old(world)@.entities.len(),
{
    let handle = world.add_entity(entity);
    world.add_renderable_at_layer(handle, layer);
    handle
}

/// Puts `entity` into a new slot of `world`, draws it in the layer `layer`
/// and registers it for collisions.
fn add_solid(world: &mut World, entity: Entity, layer: usize)
    requires
        old(world)@.wf(),
        layer < usize::MAX,
    ensures
        final(world)@ == with_solid(old(world)@, entity, layer as int),
        final(world)@.wf(),
{
    let handle = add_drawn(world, entity, layer);
    world.add_collidable(handle);
}

/// Moves the player of `world` to `position` and registers it for drawing
/// and stepping.
fn place_player(world: &mut World, position: GridPoint)
    requires
        old(world)@.wf(),
    ensures
        final(world)@ == with_player_at(old(world)@, position),
        final(world)@.wf(),
{
    world.player.position = position;
    proof {
        assert(world@.player == (PlayerView { position, ..old(world)@.player }));
        assert(world@.renderables =~= old(world)@.renderables);
        assert(world@.wf());
    }
    let handle = world.player_handle;
    world.add_renderable_at_layer(handle, PLAYER_LAYER);
    world.add_updatable(handle);
}

/// Takes the cell `cell`, whose centre is `position`, into `world`.
fn place_cell(world: &mut World, cell: &Vec<u8>, position: GridPoint, assets: &LevelAssets)
    requires
        old(world)@.wf(),
    ensures
        final(world)@ == with_cell(old(world)@, cell@, position, *assets),
        final(world)@.wf(),
        arena_without_enemy(old(world)@.entities) && cell@ != seq![ENEMY_CELL]
            ==> arena_without_enemy(final(world)@.entities),
{
    let unit = Ratio::one();
    let ground = Ground {
        position,
        scale: unit,
        renderable_object: RenderableObject { texture: assets.ground },
        is_visible: true,
    };
    if cell.len() != 1 {
        assert(cell@ != seq![WALL_CELL] && cell@ != seq![PLAYER_CELL] && cell@ != seq![ENEMY_CELL]
            && cell@ != seq![GROUND_CELL]);
        return ;
    }
    let item = cell[0];
    assert(cell@ =~= seq![item]);
    assert(seq![WALL_CELL][0] == WALL_CELL && seq![PLAYER_CELL][0] == PLAYER_CELL
        && seq![ENEMY_CELL][0] == ENEMY_CELL && seq![GROUND_CELL][0] == GROUND_CELL);
    if item == WALL_CELL {
        let wall = Wall {
            position,
            scale: unit,
            renderable_object: RenderableObject { texture: assets.wall },
            collidable_object: CollidableObject::from_texture(&assets.wall),
            is_visible: true,
        };
        add_solid(world, Entity::Wall(wall), WALL_LAYER);
    } else if item == PLAYER_CELL {
        add_drawn(world, Entity::Ground(ground), GROUND_LAYER);
        place_player(world, position);
    } else if item == ENEMY_CELL {
        add_drawn(world, Entity::Ground(ground), GROUND_LAYER);
        let enemy = Enemy {
            position,
            scale: unit,
            renderable_object: RenderableObject { texture: assets.enemy },
            should_delete: false,
            collidable_object: CollidableObject::from_texture(&assets.enemy),
            is_visible: true,
        };
        add_solid(world, Entity::Enemy(enemy), ENEMY_LAYER);
    } else if item == GROUND_CELL {
        add_drawn(world, Entity::Ground(ground), GROUND_LAYER);
    }
}

/// The player a level starts with.
fn new_player(assets: &LevelAssets) -> (player: Player)
    ensures
        player@ == starting_player(*assets),
        forall|arena: Seq<Entity>| player@.wf(arena),
{
    let hand_gun = MetaGun::new(
        assets.hand_gun,
        assets.hand_gun_selected,
        assets.gun_sound,
        assets.bullet,
        assets.bullet_sound,
        GunBehavior::HandGun(HandGun { should_delete: false }),
    );
    let gun_axe = MetaGun::new(
        assets.gun_axe,
        assets.gun_axe_selected,
        assets.gun_sound,
        assets.bullet,
        assets.bullet_sound,
        GunBehavior::GunAxe(GunAxe { should_delete: false }),
    );
    let mut meta_guns: Vec<MetaGun> = Vec::new();
    meta_guns.push(hand_gun);
    meta_guns.push(gun_axe);
    let player = Player::new(
        GridPoint { x: 0, y: 0 },
        Ratio::new(1, 2),
        RenderableObject { texture: assets.player },
        RenderableObject { texture: assets.player_selected },
        meta_guns,
    );
    proof {
        assert(player@.gun_concepts =~= starting_player(*assets).gun_concepts);
    }
    player
}

/// Whether every cell of the grid has its centre on the pixel grid.
fn grid_fits(rows: &Vec<Vec<Vec<u8>>>) -> (r: bool)
    ensures
        r == fits(cells_of(*rows)),
{
    if rows.len() > MAX_CELL_INDEX as usize + 1 {
        return false;
    }
    let mut r: usize = 0;
    while r < rows.len()
        invariant
            r <= rows@.len(),
            rows@.len() <= MAX_CELL_INDEX + 1,
            forall|k: int| 0 <= k < r ==> (#[trigger] cells_of(*rows)[k]).len() <= MAX_CELL_INDEX + 1,
        decreases rows@.len() - r,
    {
        if rows[r].len() > MAX_CELL_INDEX as usize + 1 {
            assert(cells_of(*rows)[r as int].len() == rows@[r as int]@.len());
            return false;
        }
        assert(cells_of(*rows)[r as int].len() == rows@[r as int]@.len());
        r += 1;
    }
    true
}

/// Builds the world of a level from the rows of its grid, read from top to
/// bottom and from left to right. A grid with a cell whose centre would lie
/// off the pixel grid is refused.
pub fn build_level(
    rows: &Vec<Vec<Vec<u8>>>,
    name: String,
    assets: &LevelAssets,
    fps_counter: FpsCounter,
) -> (r: Result<World, LevelError>)
    ensures
        match r {
            Ok(world) => {
                &&& fits(cells_of(*rows))
                &&& world@ == level_world(cells_of(*rows), name@, *assets, fps_counter)
                &&& world@.fps_counter == fps_counter
                &&& world@.wf()
                &&& grid_without_enemy(cells_of(*rows)) ==> world@.is_victorious()
            },
            Err(e) => !fits(cells_of(*rows)) && e == LevelError::TooLarge,
        },
{
    if !grid_fits(rows) {
        return Err(LevelError::TooLarge);
    }
    let ghost grid = cells_of(*rows);
    let mut world = World::new(new_player(assets), name, fps_counter);
    let ghost start = world@;
    assert(start == empty_level(name@, *assets, fps_counter));
    let mut r: usize = 0;
    while r < rows.len()
        invariant
            r <= rows@.len(),
            grid == cells_of(*rows),
            fits(grid),
            world@.wf(),
            world@.fps_counter == fps_counter,
            grid_without_enemy(grid.take(r as int)) ==> arena_without_enemy(world@.entities),
            world@ == with_rows(start, grid.take(r as int), *assets),
        decreases rows@.len() - r,
    {
        let line = &rows[r];
        let ghost cells = grid[r as int];
        let ghost row_start = world@;
        proof {
            assert(cells == line@.map_values(|cell: Vec<u8>| cell@));
            assert(grid.take(r + 1).drop_last() =~= grid.take(r as int));
            assert(grid.take(r + 1).last() == cells);
        }
        let mut c: usize = 0;
        while c < line.len()
            invariant
                c <= line@.len(),
                r < rows@.len(),
                r <= MAX_CELL_INDEX,
                line@.len() <= MAX_CELL_INDEX + 1,
                cells == line@.map_values(|cell: Vec<u8>| cell@),
                cells == grid[r as int],
                world@.wf(),
                world@.fps_counter == fps_counter,
                grid_without_enemy(grid.take(r as int)) && row_without_enemy(cells.take(c as int))
                    ==> arena_without_enemy(world@.entities),
                world@ == with_row(row_start, cells.take(c as int), r as int, *assets),
            decreases line@.len() - c,
        {
            proof {
                assert(cells.take(c + 1).drop_last() =~= cells.take(c as int));
                assert(cells.take(c + 1).last() == line@[c as int]@);
                if row_without_enemy(cells.take(c + 1)) {
                    assert(cells.take(c + 1)[c as int] != seq![ENEMY_CELL]);
                    assert forall|b: int| 0 <= b < c implies #[trigger] cells.take(c as int)[b]
                        != seq![ENEMY_CELL] by {
                        assert(cells.take(c + 1)[b] == cells.take(c as int)[b]);
                    }
                }
            }
            let position = center_of_cell(c as u32, r as u32);
            place_cell(&mut world, &line[c], position, assets);
            c += 1;
        }
        proof {
            assert(cells.take(c as int) =~= cells);
            if grid_without_enemy(grid.take(r + 1)) {
                assert(row_without_enemy(grid.take(r + 1)[r as int]));
                assert forall|a: int| 0 <= a < r implies row_without_enemy(
                    #[trigger] grid.take(r as int)[a],
                ) by {
                    assert(grid.take(r + 1)[a] == grid.take(r as int)[a]);
                }
            }
        }
        r += 1;
    }
    proof {
        assert(grid.take(r as int) =~= grid);
        if grid_without_enemy(grid) {
            lemma_no_enemy_is_victory(world@);
        }
    }
    Ok(world)
}

/// Loads the level named `name` from the bytes of its grid file. The file
/// is read as comma-separated records without a header row; a file the
/// reader rejects is malformed.
pub fn load_level(bytes: &[u8], name: String, assets: &LevelAssets) -> (r: Result<World, LevelError>)
    ensures
        match r {
            Ok(world) => {
                &&& csv_records(bytes@) matches Some(rows) && fits(rows) && world@ == level_world(
                    rows,
                    name@,
                    *assets,
                    world@.fps_counter,
                )
                &&& world@.fps_counter.num_frames_in_batch == 0
                &&& world@.fps_counter.average_frame_time == 1
                &&& world@.fps_counter.fps == 0
                &&& world@.wf()
                &&& grid_without_enemy(csv_records(bytes@)->Some_0) ==> world@.is_victorious()
            },
            Err(LevelError::Malformed) => csv_records(bytes@) is None,
            Err(LevelError::TooLarge) => csv_records(bytes@) matches Some(rows) && !fits(rows),
        },
{
    match read_records(bytes) {
        Ok(rows) => build_level(&rows, name, assets, FpsCounter::new()),
        Err(_) => Err(LevelError::Malformed),
    }
}

} // verus!
