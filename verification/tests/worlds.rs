use birblike::buffer::{Buffer, ShaderStorageBuffer, UsageType, VertexBuffer};
use birblike::grid::{Grid, GridX};
use birblike::shader::program::{Program, RawProgram};
use birblike::tiles::{BorderTile, Tile};
use birblike::uniform::Uniform;
use birblike::vertex_array::VertexArray;
use birblike::world::{
    place_room, track_positions, ChangeSet, SyncError, TerrainColor, TileEntry, WorldRenderer,
    WorldUniforms,
};

fn engine() -> WorldRenderer<(u32, u32), u32> {
    let linked = RawProgram::new(9).unwrap().link(1, None, 1, None).unwrap();
    let env = WorldUniforms {
        tile_amounts: Uniform::new(1),
        tilemap: Uniform::new(2),
        positions: ShaderStorageBuffer::new(21, 0),
        uvs: ShaderStorageBuffer::new(22, 1),
        fg_colors: ShaderStorageBuffer::new(23, 2),
        bg_colors: ShaderStorageBuffer::new(24, 3),
    };
    let program = Program::from_parts(linked, env);
    let vao = VertexArray::new(31);
    let mut vbo: VertexBuffer<(u32, u32)> = Buffer::new(32);
    vbo.upload(
        &[(0, 0), (0, 1), (1, 1), (0, 0), (1, 1), (1, 0)],
        UsageType::StaticDraw,
    );
    WorldRenderer::new(program, vao, vbo, 40, 40)
}

fn entry(x: u32, y: u32, fg: u32, bg: u32) -> TileEntry<u32> {
    TileEntry { x, y, color: TerrainColor { fg, bg }, sprite: Tile::Air }
}

fn inserted() -> ChangeSet {
    ChangeSet { any: true, entities: vec![0, 1, 2] }
}

fn quiet() -> ChangeSet {
    ChangeSet { any: false, entities: vec![] }
}

fn read_fg(eng: &mut WorldRenderer<(u32, u32), u32>) -> Vec<u32> {
    let env = eng.env_mut();
    let (view, _) = env.fg_colors.map_mut();
    let view = view.expect("the colors were uploaded");
    let mut out = Vec::new();
    for i in 0..3 {
        out.push(*view.index(i));
    }
    env.fg_colors.unmap(view);
    out
}

#[test]
fn full_resync_assigns_distinct_slots_and_colors() {
    let mut eng = engine();
    let entities = vec![
        entry(0, 0, 100, 0),
        entry(1, 0, 101, 0),
        entry(0, 1, 102, 0),
    ];
    let r = eng.run(&inserted(), &quiet(), &entities, &vec![]);
    assert!(r.is_ok());

    let s00 = eng.slot_of(0, 0).unwrap();
    let s10 = eng.slot_of(1, 0).unwrap();
    let s01 = eng.slot_of(0, 1).unwrap();
    assert!(s00 < 3 && s10 < 3 && s01 < 3);
    assert!(s00 != s10 && s10 != s01 && s00 != s01);

    let fg = read_fg(&mut eng);
    assert_eq!(fg[s00], 100);
    assert_eq!(fg[s10], 101);
    assert_eq!(fg[s01], 102);
}

#[test]
fn partial_patch_touches_only_the_changed_slot() {
    let mut eng = engine();
    let entities = vec![
        entry(0, 0, 100, 0),
        entry(1, 0, 101, 0),
        entry(0, 1, 102, 0),
    ];
    eng.run(&inserted(), &quiet(), &entities, &vec![]).unwrap();
    let slots_before = (
        eng.slot_of(0, 0).unwrap(),
        eng.slot_of(1, 0).unwrap(),
        eng.slot_of(0, 1).unwrap(),
    );

    let modified = ChangeSet { any: true, entities: vec![1] };
    let changed = vec![entry(1, 0, 999, 0)];
    eng.run(&quiet(), &modified, &entities, &changed).unwrap();

    // No full resync happened: the index is unchanged.
    let slots_after = (
        eng.slot_of(0, 0).unwrap(),
        eng.slot_of(1, 0).unwrap(),
        eng.slot_of(0, 1).unwrap(),
    );
    assert_eq!(slots_before, slots_after);

    let fg = read_fg(&mut eng);
    assert_eq!(fg[slots_after.1], 999);
    assert_eq!(fg[slots_after.0], 100);
    assert_eq!(fg[slots_after.2], 102);
}

#[test]
fn patching_an_unknown_position_is_fatal_not_skipped() {
    let mut eng = engine();
    let entities = vec![entry(0, 0, 100, 0)];
    eng.run(&inserted(), &quiet(), &entities, &vec![]).unwrap();

    let modified = ChangeSet { any: true, entities: vec![7] };
    let changed = vec![entry(5, 5, 1, 1)];
    let r = eng.run(&quiet(), &modified, &entities, &changed);
    assert_eq!(r.unwrap_err(), SyncError::MissingSlot { x: 5, y: 5 });

    // Nothing was written.
    let fg = {
        let env = eng.env_mut();
        let (view, _) = env.fg_colors.map_mut();
        let view = view.unwrap();
        let v = *view.index(0);
        env.fg_colors.unmap(view);
        v
    };
    assert_eq!(fg, 100);
}

#[test]
fn quiet_frames_only_draw() {
    let mut eng = engine();
    let r = eng.run(&quiet(), &quiet(), &vec![], &vec![]).unwrap();
    // The dimensions uniform, then the five frame-closing calls.
    assert_eq!(r.len(), 6);
}

#[test]
fn duplicate_positions_keep_the_last_slot() {
    let mut eng = engine();
    let entities = vec![entry(2, 2, 5, 0), entry(2, 2, 6, 0)];
    eng.run(&inserted(), &quiet(), &entities, &vec![]).unwrap();
    assert_eq!(eng.slot_of(2, 2), Some(1));
    assert_eq!(eng.slot_of(3, 3), None);
}

#[test]
fn tracker_writes_in_bounds_entities_only() {
    let mut grid: GridX<u32> = Grid::from_iter(vec![0; 4], 2, 2);
    let items = vec![(7u32, 0usize, 0usize), (8, 1, 1), (9, 5, 5)];
    track_positions(&mut grid, &items);
    assert_eq!(*grid.index(0, 0), 7);
    assert_eq!(*grid.index(1, 1), 8);
    assert_eq!(*grid.index(1, 0), 0);
    assert_eq!(*grid.index(0, 1), 0);
}

#[test]
fn grid_basics() {
    let mut grid: GridX<u32> = Grid::from_iter(vec![1, 2, 3, 4, 5, 6, 7], 3, 2);
    assert_eq!(grid.dimensions(), (3, 2));
    assert_eq!(grid.iter().len(), 6);
    assert_eq!(*grid.index(0, 0), 1);
    assert_eq!(*grid.index(2, 0), 3);
    assert_eq!(*grid.index(0, 1), 4);
    grid.set(2, 1, 60);
    assert_eq!(*grid.index(2, 1), 60);

    let other: GridX<u32> = Grid::from_iter(vec![9; 6], 3, 2);
    grid.copy_grid(&other);
    assert_eq!(*grid.index(1, 1), 9);
}

#[test]
fn column_major_grids_lay_columns_contiguously() {
    let grid: Grid<u32, birblike::grid::AdjacentY> = Grid::from_iter(vec![1, 2, 3, 4, 5, 6], 3, 2);
    // Backing order is column by column: (0,0),(0,1),(1,0),(1,1),...
    assert_eq!(*grid.index(0, 1), 2);
    assert_eq!(*grid.index(1, 0), 3);
}

#[test]
fn placed_room_draws_its_border() {
    let mut tiles: GridX<Tile> = Grid::from_iter(vec![Tile::Air; 16], 4, 4);
    place_room(&mut tiles, (0, 0), (2, 2));

    let b = |top: bool, bottom: bool, left: bool, right: bool| {
        Tile::Border(BorderTile::new(top, bottom, left, right))
    };
    // Corner bends.
    assert_eq!(*tiles.index(0, 0), b(true, false, false, true));
    assert_eq!(*tiles.index(0, 2), b(false, true, false, true));
    assert_eq!(*tiles.index(2, 0), b(true, false, true, false));
    assert_eq!(*tiles.index(2, 2), b(false, true, true, false));
    // Edge runs.
    assert_eq!(*tiles.index(1, 0), b(true, true, false, false));
    assert_eq!(*tiles.index(1, 2), b(true, true, false, false));
    assert_eq!(*tiles.index(0, 1), b(false, false, true, true));
    assert_eq!(*tiles.index(2, 1), b(false, false, true, true));
    // The interior and the rest of the grid stay air.
    assert_eq!(*tiles.index(1, 1), Tile::Air);
    assert_eq!(*tiles.index(3, 3), Tile::Air);
}

#[test]
fn overlapping_rooms_merge_their_borders() {
    let mut tiles: GridX<Tile> = Grid::from_iter(vec![Tile::Air; 25], 5, 5);
    place_room(&mut tiles, (0, 0), (2, 2));
    place_room(&mut tiles, (0, 2), (2, 4));
    // The shared corner (0, 2) is a top-left bend merged with a
    // bottom-left bend: a T pointing right.
    assert_eq!(
        *tiles.index(0, 2),
        Tile::Border(BorderTile::new(true, true, false, true))
    );
}
