//! The per-frame synchronization engine.
//!
//! The engine keeps three device-resident structure-of-arrays buffers
//! (positions, foreground colors, background colors) and one sprite-cell
//! buffer in step with the logical tile entities, across two strategies.
//! When entities were inserted since the last frame, it performs a *full
//! resync*: every live entity's data is re-extracted into fresh arrays,
//! the position-to-slot index is rebuilt (iteration order becomes buffer
//! order), and every buffer is uploaded wholesale. When only component
//! values changed, it performs a *partial patch*: each changed entity's
//! slot is looked up in the index and only that slot is overwritten
//! through a mapped view. A change reported for a position the index does
//! not know violates the protocol between the tracker and the engine and
//! is a fatal error, never silently skipped. Either way the frame ends
//! with one instanced draw over the whole grid.

use vstd::prelude::*;
use std::collections::HashMap;
use crate::buffer::{ShaderStorageBuffer, UsageType, VertexBuffer};
use crate::command::DeviceCommand;
use crate::shader::program::Program;
use crate::target::{BufferTarget, ShaderStorage};
use crate::grid::{AdjacentX, Adjacency, GridX};
use crate::tiles::{BorderTile, SpriteCell, Tile};
use crate::uniform::Uniform;
use crate::vertex_array::VertexArray;

verus! {

broadcast use vstd::std_specs::hash::group_hash_axioms;

/// Marks an entity whose tracked components changed this frame.
#[derive(Copy, Clone, Debug, PartialEq, Eq, Structural, Default)]
pub struct Dirty;

/// The two colors a tile is drawn with.
#[derive(Copy, Clone, Debug, PartialEq, Eq)]
pub struct TerrainColor<C> {
    /// The foreground (glyph) color.
    pub fg: C,
    /// The background (fill) color.
    pub bg: C,
}

/// What the change tracker reports for one kind of change: whether any
/// entity is affected, and which ones. Cleared and refilled every frame.
#[derive(Clone, Debug, PartialEq, Eq)]
pub struct ChangeSet {
    /// Whether any entity was affected since the last frame.
    pub any: bool,
    /// The affected entity identifiers.
    pub entities: Vec<u32>,
}

/// One live entity's tracked data, as handed over for a frame: its grid
/// position, its colors, and its tile (which determines the sprite cell).
#[derive(Copy, Clone, Debug, PartialEq, Eq)]
pub struct TileEntry<C> {
    /// The grid column the entity occupies.
    pub x: u32,
    /// The grid row the entity occupies.
    pub y: u32,
    /// The entity's colors.
    pub color: TerrainColor<C>,
    /// The entity's tile.
    pub sprite: Tile,
}

/// Packs a grid position into one key: positions are recovered uniquely,
/// so two distinct positions never collide.
pub open spec fn pos_key(x: u32, y: u32) -> u64 {
    ((x as int) * 0x1_0000_0000 + (y as int)) as u64
}

/// The key of an entry's position.
pub open spec fn entry_key<C>(e: TileEntry<C>) -> u64 {
    pos_key(e.x, e.y)
}

/// Packing positions into keys is injective.
pub proof fn lemma_pos_key_injective(x1: u32, y1: u32, x2: u32, y2: u32)
    requires
        pos_key(x1, y1) == pos_key(x2, y2),
    ensures
        x1 == x2 && y1 == y2,
{
    assert((x1 as int) * 0x1_0000_0000 + (y1 as int) < 0x1_0000_0000_0000_0000);
    assert((x2 as int) * 0x1_0000_0000 + (y2 as int) < 0x1_0000_0000_0000_0000);
}

/// Computes the key of a position.
pub fn pos_key_of(x: u32, y: u32) -> (r: u64)
    ensures
        r == pos_key(x, y),
{
    (x as u64) * 0x1_0000_0000 + (y as u64)
}

/// The position-to-slot index a full resync over `entries` builds: entry
/// `i`'s position maps to slot `i`, later entries overwriting earlier
/// ones at the same position.
pub open spec fn index_map_of<C>(entries: Seq<TileEntry<C>>) -> Map<u64, usize>
    decreases entries.len(),
{
    if entries.len() == 0 {
        Map::empty()
    } else {
        index_map_of(entries.drop_last()).insert(
            entry_key(entries.last()),
            (entries.len() - 1) as usize,
        )
    }
}

/// All keys of the index over `entries` pack positions of entries, and
/// every slot the index knows lies inside the arrays a resync fills.
pub proof fn lemma_index_map_range<C>(entries: Seq<TileEntry<C>>)
    requires
        entries.len() <= usize::MAX,
    ensures
        forall|k: u64| #[trigger]
            index_map_of(entries).contains_key(k) ==> index_map_of(entries)[k] < entries.len(),
        forall|k: u64| #[trigger]
            index_map_of(entries).contains_key(k) ==> exists|i: int|
                0 <= i < entries.len() && entry_key(entries[i]) == k,
    decreases entries.len(),
{
    if entries.len() > 0 {
        let prev = index_map_of(entries.drop_last());
        let full = index_map_of(entries);
        lemma_index_map_range(entries.drop_last());
        assert forall|k: u64| #[trigger] full.contains_key(k) implies full[k] < entries.len()
            && exists|i: int| 0 <= i < entries.len() && entry_key(entries[i]) == k by {
            if k == entry_key(entries.last()) {
                assert(full[k] == entries.len() - 1);
                assert(entry_key(entries[entries.len() - 1]) == k);
            } else {
                assert(prev.contains_key(k));
                assert(full[k] == prev[k]);
                let i = choose|i: int|
                    0 <= i < entries.drop_last().len() && entry_key(
                        #[trigger] entries.drop_last()[i],
                    ) == k;
                assert(entries.drop_last()[i] == entries[i]);
                assert(entry_key(entries[i]) == k);
            }
        }
    }
}

/// When all entries occupy distinct positions, the index a resync builds
/// maps entry `i`'s position to exactly slot `i`: each position gets a
/// distinct slot, and the slot holds that entity's data.
pub proof fn lemma_index_map_distinct<C>(entries: Seq<TileEntry<C>>, i: int)
    requires
        entries.len() <= usize::MAX,
        forall|a: int, b: int|
            0 <= a < entries.len() && 0 <= b < entries.len() && a != b ==> entry_key(
                #[trigger] entries[a],
            ) != entry_key(#[trigger] entries[b]),
        0 <= i < entries.len(),
    ensures
        index_map_of(entries).contains_key(entry_key(entries[i])),
        index_map_of(entries)[entry_key(entries[i])] == i,
    decreases entries.len(),
{
    if i == entries.len() - 1 {
        assert(entries.last() == entries[entries.len() - 1]);
        assert(index_map_of(entries)[entry_key(entries.last())] == entries.len() - 1);
    } else {
        assert(forall|a: int|
            0 <= a < entries.drop_last().len() ==> #[trigger] entries.drop_last()[a]
                == entries[a]);
        assert(forall|a: int, b: int|
            0 <= a < entries.drop_last().len() && 0 <= b < entries.drop_last().len() && a != b
                ==> entry_key(#[trigger] entries.drop_last()[a]) != entry_key(
                #[trigger] entries.drop_last()[b],
            ));
        lemma_index_map_distinct(entries.drop_last(), i);
        assert(entries.drop_last()[i] == entries[i]);
        assert(entries.last() == entries[entries.len() - 1]);
        assert(entry_key(entries[i]) != entry_key(entries.last()));
        assert(index_map_of(entries)[entry_key(entries[i])] == index_map_of(
            entries.drop_last(),
        )[entry_key(entries[i])]);
    }
}

/// Every patched entry's position is known to the index, with a slot
/// inside an array of length `n`.
pub open spec fn patch_in_range<C>(n: int, m: Map<u64, usize>, entries: Seq<TileEntry<C>>) -> bool {
    forall|i: int|
        0 <= i < entries.len() ==> m.contains_key(entry_key(#[trigger] entries[i])) && m[entry_key(
            entries[i],
        )] < n
}

/// A prefix of in-range entries is in range.
proof fn lemma_patch_in_range_prefix<C>(n: int, m: Map<u64, usize>, entries: Seq<TileEntry<C>>)
    requires
        patch_in_range(n, m, entries),
        entries.len() > 0,
    ensures
        patch_in_range(n, m, entries.drop_last()),
{
    assert(forall|i: int|
        0 <= i < entries.drop_last().len() ==> #[trigger] entries.drop_last()[i] == entries[i]);
}

/// The position array a patch leaves behind: each changed entry's
/// position is written at the slot the index assigns to it, in order.
pub open spec fn patched_positions<C>(
    base: Seq<(u32, u32)>,
    m: Map<u64, usize>,
    entries: Seq<TileEntry<C>>,
) -> Seq<(u32, u32)>
    decreases entries.len(),
{
    if entries.len() == 0 {
        base
    } else {
        patched_positions(base, m, entries.drop_last()).update(
            m[entry_key(entries.last())] as int,
            (entries.last().x, entries.last().y),
        )
    }
}

/// The foreground color array a patch leaves behind.
pub open spec fn patched_fg<C>(
    base: Seq<C>,
    m: Map<u64, usize>,
    entries: Seq<TileEntry<C>>,
) -> Seq<C>
    decreases entries.len(),
{
    if entries.len() == 0 {
        base
    } else {
        patched_fg(base, m, entries.drop_last()).update(
            m[entry_key(entries.last())] as int,
            entries.last().color.fg,
        )
    }
}

/// The background color array a patch leaves behind.
pub open spec fn patched_bg<C>(
    base: Seq<C>,
    m: Map<u64, usize>,
    entries: Seq<TileEntry<C>>,
) -> Seq<C>
    decreases entries.len(),
{
    if entries.len() == 0 {
        base
    } else {
        patched_bg(base, m, entries.drop_last()).update(
            m[entry_key(entries.last())] as int,
            entries.last().color.bg,
        )
    }
}

/// Patching in range never changes the arrays' lengths.
pub proof fn lemma_patched_len<C>(
    base_pos: Seq<(u32, u32)>,
    base_fg: Seq<C>,
    base_bg: Seq<C>,
    m: Map<u64, usize>,
    entries: Seq<TileEntry<C>>,
)
    requires
        patch_in_range(base_pos.len() as int, m, entries),
        base_fg.len() == base_pos.len(),
        base_bg.len() == base_pos.len(),
    ensures
        patched_positions(base_pos, m, entries).len() == base_pos.len(),
        patched_fg(base_fg, m, entries).len() == base_fg.len(),
        patched_bg(base_bg, m, entries).len() == base_bg.len(),
    decreases entries.len(),
{
    if entries.len() > 0 {
        lemma_patch_in_range_prefix(base_pos.len() as int, m, entries);
        lemma_patched_len(base_pos, base_fg, base_bg, m, entries.drop_last());
        assert(entries.last() == entries[entries.len() - 1]);
    }
}

/// A slot that belongs to none of the patched entries keeps its old
/// value in all three arrays: a partial patch touches only the slots of
/// the changed entities.
pub proof fn lemma_patched_untouched<C>(
    base_pos: Seq<(u32, u32)>,
    base_fg: Seq<C>,
    base_bg: Seq<C>,
    m: Map<u64, usize>,
    entries: Seq<TileEntry<C>>,
    j: int,
)
    requires
        patch_in_range(base_pos.len() as int, m, entries),
        base_fg.len() == base_pos.len(),
        base_bg.len() == base_pos.len(),
        0 <= j < base_pos.len(),
        forall|i: int| 0 <= i < entries.len() ==> m[entry_key(#[trigger] entries[i])] != j,
    ensures
        patched_positions(base_pos, m, entries)[j] == base_pos[j],
        patched_fg(base_fg, m, entries)[j] == base_fg[j],
        patched_bg(base_bg, m, entries)[j] == base_bg[j],
    decreases entries.len(),
{
    if entries.len() > 0 {
        assert(forall|i: int|
            0 <= i < entries.drop_last().len() ==> #[trigger] entries.drop_last()[i]
                == entries[i]);
        lemma_patch_in_range_prefix(base_pos.len() as int, m, entries);
        lemma_patched_untouched(base_pos, base_fg, base_bg, m, entries.drop_last(), j);
        lemma_patched_len(base_pos, base_fg, base_bg, m, entries.drop_last());
        assert(entries.last() == entries[entries.len() - 1]);
    }
}

/// The typed environment the world pipeline resolves: its two uniforms
/// and the four structure-of-arrays storage buffers the tiles live in.
pub struct WorldUniforms<C> {
    /// The grid dimensions uniform.
    pub tile_amounts: Uniform<(i32, i32)>,
    /// The atlas texture unit uniform.
    pub tilemap: Uniform<i32>,
    /// One grid position per entity slot.
    pub positions: ShaderStorageBuffer<(u32, u32)>,
    /// One atlas cell per entity slot.
    pub uvs: ShaderStorageBuffer<SpriteCell>,
    /// One foreground color per entity slot.
    pub fg_colors: ShaderStorageBuffer<C>,
    /// One background color per entity slot.
    pub bg_colors: ShaderStorageBuffer<C>,
}

/// A protocol violation between the change tracker and the engine: fatal,
/// never to be skipped silently.
#[derive(Copy, Clone, Debug, PartialEq, Eq, Structural)]
pub enum SyncError {
    /// A change was reported for a position that was not part of the last
    /// full resync, so it has no slot in the device arrays.
    MissingSlot {
        /// The column of the unknown position.
        x: u32,
        /// The row of the unknown position.
        y: u32,
    },
}

/// The calls of one wholesale upload into an indexed storage buffer.
pub open spec fn ssbo_upload_cmds(slot: u32, buffer: u32, len: usize) -> Seq<DeviceCommand> {
    seq![
        DeviceCommand::BindBufferBase {
            target: <ShaderStorage as BufferTarget>::target_spec(),
            slot,
            buffer,
        },
        DeviceCommand::BindBuffer {
            target: <ShaderStorage as BufferTarget>::target_spec(),
            buffer,
        },
        DeviceCommand::BufferData {
            target: <ShaderStorage as BufferTarget>::target_spec(),
            len,
            usage: UsageType::DynamicDraw.code_spec(),
        },
    ]
}

/// The calls that open a mapped view over a storage buffer's full extent.
pub open spec fn ssbo_map_cmds(buffer: u32, len: usize) -> Seq<DeviceCommand> {
    seq![
        DeviceCommand::BindBuffer {
            target: <ShaderStorage as BufferTarget>::target_spec(),
            buffer,
        },
        DeviceCommand::MapBufferRange {
            target: <ShaderStorage as BufferTarget>::target_spec(),
            len,
        },
    ]
}

/// The calls that commit a mapped view back to its storage buffer.
pub open spec fn ssbo_unmap_cmds(buffer: u32) -> Seq<DeviceCommand> {
    seq![
        DeviceCommand::BindBuffer {
            target: <ShaderStorage as BufferTarget>::target_spec(),
            buffer,
        },
        DeviceCommand::UnmapBuffer { target: <ShaderStorage as BufferTarget>::target_spec() },
    ]
}

/// The synchronization engine: the linked world pipeline with its typed
/// environment, the quad geometry, and the position-to-slot index that
/// ties logical grid positions to slots of the device arrays.
pub struct WorldRenderer<V, C> {
    program: Program<V, WorldUniforms<C>>,
    vao: VertexArray,
    vbo: VertexBuffer<V>,
    pos_to_index: HashMap<u64, usize>,
    width: u32,
    height: u32,
}

impl<V, C: Copy> WorldRenderer<V, C> {
    /// The typed environment of the world pipeline.
    pub closed spec fn spec_env(self) -> WorldUniforms<C> {
        self.program.spec_env()
    }

    /// The device handle of the linked program.
    pub closed spec fn spec_program_id(self) -> u32 {
        self.program.spec_id()
    }

    /// The vertex array the quad geometry is described on.
    pub closed spec fn spec_vao(self) -> VertexArray {
        self.vao
    }

    /// The quad vertex buffer.
    pub closed spec fn spec_vbo(self) -> VertexBuffer<V> {
        self.vbo
    }

    /// The position-to-slot index: which slot of the device arrays each
    /// grid position currently occupies.
    pub closed spec fn index_map(self) -> Map<u64, usize> {
        self.pos_to_index@
    }

    /// The grid width in tiles.
    pub closed spec fn spec_width(self) -> u32 {
        self.width
    }

    /// The grid height in tiles.
    pub closed spec fn spec_height(self) -> u32 {
        self.height
    }

    /// The engine's invariant: the four device arrays are unmapped, well
    /// formed and equally long, every slot the index knows is inside
    /// them, the quad buffer is ready to draw, and the grid dimensions
    /// and vertex count fit the draw call's argument types.
    pub open spec fn wf(self) -> bool {
        let env = self.spec_env();
        &&& env.positions.wf()
        &&& !env.positions.is_mapped()
        &&& env.fg_colors.wf()
        &&& !env.fg_colors.is_mapped()
        &&& env.bg_colors.wf()
        &&& !env.bg_colors.is_mapped()
        &&& env.uvs.wf()
        &&& !env.uvs.is_mapped()
        &&& env.fg_colors.spec_len() == env.positions.spec_len()
        &&& env.bg_colors.spec_len() == env.positions.spec_len()
        &&& env.uvs.spec_len() == env.positions.spec_len()
        &&& forall|k: u64|
            self.index_map().contains_key(k) ==> #[trigger] self.index_map()[k]
                < env.positions.spec_len()
        &&& self.spec_vbo().wf()
        &&& !self.spec_vbo().is_mapped()
        &&& self.spec_vbo().spec_len() <= i32::MAX
        &&& self.spec_width() <= i32::MAX
        &&& self.spec_height() <= i32::MAX
        &&& (self.spec_width() as int) * (self.spec_height() as int) <= i32::MAX
    }

    /// What stays fixed across every frame: the pipeline, the geometry,
    /// the buffers' identities and binding points, the uniforms, and the
    /// grid dimensions.
    pub open spec fn frame_fixed(pre: Self, post: Self) -> bool {
        let pe = pre.spec_env();
        let qe = post.spec_env();
        &&& post.spec_program_id() == pre.spec_program_id()
        &&& post.spec_vao() == pre.spec_vao()
        &&& post.spec_vbo() == pre.spec_vbo()
        &&& post.spec_width() == pre.spec_width()
        &&& post.spec_height() == pre.spec_height()
        &&& qe.tile_amounts == pe.tile_amounts
        &&& qe.tilemap == pe.tilemap
        &&& qe.positions.spec_id() == pe.positions.spec_id()
        &&& qe.positions.spec_bind_point() == pe.positions.spec_bind_point()
        &&& qe.uvs.spec_id() == pe.uvs.spec_id()
        &&& qe.uvs.spec_bind_point() == pe.uvs.spec_bind_point()
        &&& qe.fg_colors.spec_id() == pe.fg_colors.spec_id()
        &&& qe.fg_colors.spec_bind_point() == pe.fg_colors.spec_bind_point()
        &&& qe.bg_colors.spec_id() == pe.bg_colors.spec_id()
        &&& qe.bg_colors.spec_bind_point() == pe.bg_colors.spec_bind_point()
    }

    /// What a full resync leaves behind: the index maps each entity's
    /// position to its slot in iteration order, and each device array
    /// holds, slot for slot, that entity's position, colors and sprite
    /// cell.
    pub open spec fn resync_post(pre: Self, post: Self, entries: Seq<TileEntry<C>>) -> bool {
        let env = post.spec_env();
        &&& Self::frame_fixed(pre, post)
        &&& post.index_map() == index_map_of(entries)
        &&& env.positions@ == entries.map_values(|e: TileEntry<C>| (e.x, e.y))
        &&& env.fg_colors@ == entries.map_values(|e: TileEntry<C>| e.color.fg)
        &&& env.bg_colors@ == entries.map_values(|e: TileEntry<C>| e.color.bg)
        &&& env.uvs@ == entries.map_values(|e: TileEntry<C>| e.sprite.sprite_tile_spec())
        &&& env.positions.spec_len() == entries.len()
    }

    /// The calls a full resync issues: one wholesale upload per device
    /// array, under a hint of frequent respecification.
    pub open spec fn resync_cmds(pre: Self, n: usize) -> Seq<DeviceCommand> {
        let env = pre.spec_env();
        ssbo_upload_cmds(env.positions.spec_bind_point(), env.positions.spec_id(), n)
            + ssbo_upload_cmds(env.fg_colors.spec_bind_point(), env.fg_colors.spec_id(), n)
            + ssbo_upload_cmds(env.bg_colors.spec_bind_point(), env.bg_colors.spec_id(), n)
            + ssbo_upload_cmds(env.uvs.spec_bind_point(), env.uvs.spec_id(), n)
    }

    /// Assembles the engine from its resolved parts: the linked pipeline
    /// with its environment, the vertex array describing the quad buffer,
    /// and the grid dimensions. The index starts empty, matching the
    /// empty device arrays.
    pub fn new(
        program: Program<V, WorldUniforms<C>>,
        vao: VertexArray,
        vbo: VertexBuffer<V>,
        width: u32,
        height: u32,
    ) -> (r: Self)
        requires
            program.spec_env().positions.wf(),
            !program.spec_env().positions.is_mapped(),
            program.spec_env().fg_colors.wf(),
            !program.spec_env().fg_colors.is_mapped(),
            program.spec_env().bg_colors.wf(),
            !program.spec_env().bg_colors.is_mapped(),
            program.spec_env().uvs.wf(),
            !program.spec_env().uvs.is_mapped(),
            program.spec_env().fg_colors.spec_len() == program.spec_env().positions.spec_len(),
            program.spec_env().bg_colors.spec_len() == program.spec_env().positions.spec_len(),
            program.spec_env().uvs.spec_len() == program.spec_env().positions.spec_len(),
            vbo.wf(),
            !vbo.is_mapped(),
            vbo.spec_len() <= i32::MAX,
            width <= i32::MAX,
            height <= i32::MAX,
            (width as int) * (height as int) <= i32::MAX,
        ensures
            r.wf(),
            r.index_map() == Map::<u64, usize>::empty(),
            r.spec_env() == program.spec_env(),
            r.spec_program_id() == program.spec_id(),
            r.spec_vao() == vao,
            r.spec_vbo() == vbo,
            r.spec_width() == width,
            r.spec_height() == height,
    {
        WorldRenderer { program, vao, vbo, pos_to_index: HashMap::new(), width, height }
    }

    /// Looks a grid position up in the index: the slot of the device
    /// arrays it occupies, if the last full resync knew it.
    pub fn slot_of(&self, x: u32, y: u32) -> (r: Option<usize>)
        ensures
            match r {
                Option::Some(i) => self.index_map().contains_key(pos_key(x, y)) && i
                    == self.index_map()[pos_key(x, y)],
                Option::None => !self.index_map().contains_key(pos_key(x, y)),
            },
    {
        let key = pos_key_of(x, y);
        match self.pos_to_index.get(&key) {
            Option::Some(i) => Some(*i),
            Option::None => None,
        }
    }

    /// Borrows the typed environment, for wiring the engine up and for
    /// inspecting the device arrays from outside a frame. A caller that
    /// maps a buffer through it must unmap before the next frame, or
    /// [`Self::run`]'s precondition no longer holds.
    pub fn env_mut(&mut self) -> (r: &mut WorldUniforms<C>)
        ensures
            *r == old(self).spec_env(),
            final(self).spec_env() == *final(r),
            final(self).spec_program_id() == old(self).spec_program_id(),
            final(self).spec_vao() == old(self).spec_vao(),
            final(self).spec_vbo() == old(self).spec_vbo(),
            final(self).spec_width() == old(self).spec_width(),
            final(self).spec_height() == old(self).spec_height(),
            final(self).index_map() == old(self).index_map(),
    {
        self.program.env_mut()
    }

    /// Performs a full resync: re-extracts every entity's position,
    /// colors and sprite cell into fresh arrays in iteration order,
    /// rebuilds the position-to-slot index from scratch, and uploads all
    /// four device arrays wholesale.
    pub fn full_resync(&mut self, entities: &Vec<TileEntry<C>>) -> (cmds: Vec<DeviceCommand>)
        requires
            old(self).wf(),
        ensures
            final(self).wf(),
            Self::resync_post(*old(self), *final(self), entities@),
            cmds@ == Self::resync_cmds(*old(self), entities@.len() as usize),
    {
        let ghost gentities = entities@;
        let n = entities.len();
        let mut positions: Vec<(u32, u32)> = Vec::new();
        let mut fgs: Vec<C> = Vec::new();
        let mut bgs: Vec<C> = Vec::new();
        let mut sprites: Vec<SpriteCell> = Vec::new();
        self.pos_to_index.clear();
        for i in 0..n
            invariant
                gentities == entities@,
                n == gentities.len(),
                positions@ == gentities.take(i as int).map_values(
                    |e: TileEntry<C>| (e.x, e.y),
                ),
                fgs@ == gentities.take(i as int).map_values(|e: TileEntry<C>| e.color.fg),
                bgs@ == gentities.take(i as int).map_values(|e: TileEntry<C>| e.color.bg),
                sprites@ == gentities.take(i as int).map_values(
                    |e: TileEntry<C>| e.sprite.sprite_tile_spec(),
                ),
                self.pos_to_index@ == index_map_of(gentities.take(i as int)),
                *self == (WorldRenderer { pos_to_index: self.pos_to_index, ..*old(self) }),
        {
            let e = entities[i];
            positions.push((e.x, e.y));
            fgs.push(e.color.fg);
            bgs.push(e.color.bg);
            sprites.push(e.sprite.sprite());
            let key = pos_key_of(e.x, e.y);
            self.pos_to_index.insert(key, i);
            proof {
                let prefix = gentities.take(i + 1 as int);
                assert(prefix.drop_last() =~= gentities.take(i as int));
                assert(prefix.last() == gentities[i as int]);
                assert(positions@ =~= prefix.map_values(|e: TileEntry<C>| (e.x, e.y)));
                assert(fgs@ =~= prefix.map_values(|e: TileEntry<C>| e.color.fg));
                assert(bgs@ =~= prefix.map_values(|e: TileEntry<C>| e.color.bg));
                assert(sprites@ =~= prefix.map_values(
                    |e: TileEntry<C>| e.sprite.sprite_tile_spec(),
                ));
            }
        }
        proof {
            assert(gentities.take(n as int) =~= gentities);
            vstd::std_specs::vec::axiom_spec_len(entities);
            lemma_index_map_range(gentities);
        }
        let env = self.program.env_mut();
        let mut cmds = env.positions.upload(positions.as_slice(), UsageType::DynamicDraw);
        let mut c_fg = env.fg_colors.upload(fgs.as_slice(), UsageType::DynamicDraw);
        cmds.append(&mut c_fg);
        let mut c_bg = env.bg_colors.upload(bgs.as_slice(), UsageType::DynamicDraw);
        cmds.append(&mut c_bg);
        let mut c_uv = env.uvs.upload(sprites.as_slice(), UsageType::DynamicDraw);
        cmds.append(&mut c_uv);
        proof {
            assert(cmds@ =~= Self::resync_cmds(*old(self), gentities.len() as usize));
        }
        cmds
    }

    /// After a full resync over entities at pairwise distinct positions,
    /// every position is indexed to a distinct slot inside the arrays —
    /// entity `i` to exactly slot `i` — and the device arrays hold that
    /// entity's position, colors and sprite cell at that slot.
    pub proof fn lemma_resync_assigns_distinct_slots(
        pre: Self,
        post: Self,
        entries: Seq<TileEntry<C>>,
        i: int,
    )
        requires
            Self::resync_post(pre, post, entries),
            entries.len() <= usize::MAX,
            forall|a: int, b: int|
                0 <= a < entries.len() && 0 <= b < entries.len() && a != b ==> entry_key(
                    #[trigger] entries[a],
                ) != entry_key(#[trigger] entries[b]),
            0 <= i < entries.len(),
        ensures
            post.index_map().contains_key(entry_key(entries[i])),
            post.index_map()[entry_key(entries[i])] == i,
            post.spec_env().positions@[i] == (entries[i].x, entries[i].y),
            post.spec_env().fg_colors@[i] == entries[i].color.fg,
            post.spec_env().bg_colors@[i] == entries[i].color.bg,
            post.spec_env().uvs@[i] == entries[i].sprite.sprite_tile_spec(),
    {
        lemma_index_map_distinct(entries, i);
    }

    /// A partial patch leaves every slot that belongs to none of the
    /// changed entities exactly as it was, in all three patched arrays,
    /// and never rebuilds the index.
    pub proof fn lemma_patch_leaves_other_slots(
        pre: Self,
        post: Self,
        entries: Seq<TileEntry<C>>,
        j: int,
    )
        requires
            Self::patch_post(pre, post, entries),
            patch_in_range(pre.spec_env().positions@.len() as int, pre.index_map(), entries),
            pre.spec_env().fg_colors@.len() == pre.spec_env().positions@.len(),
            pre.spec_env().bg_colors@.len() == pre.spec_env().positions@.len(),
            0 <= j < pre.spec_env().positions@.len(),
            forall|i: int|
                0 <= i < entries.len() ==> pre.index_map()[entry_key(#[trigger] entries[i])] != j,
        ensures
            post.index_map() == pre.index_map(),
            post.spec_env().positions@[j] == pre.spec_env().positions@[j],
            post.spec_env().fg_colors@[j] == pre.spec_env().fg_colors@[j],
            post.spec_env().bg_colors@[j] == pre.spec_env().bg_colors@[j],
            post.spec_env().uvs@ == pre.spec_env().uvs@,
    {
        lemma_patched_untouched(
            pre.spec_env().positions@,
            pre.spec_env().fg_colors@,
            pre.spec_env().bg_colors@,
            pre.index_map(),
            entries,
            j,
        );
    }

    /// What a partial patch leaves behind: the index is untouched (no
    /// rebuild), the sprite array is untouched, and the position and
    /// color arrays equal the old arrays with exactly the changed
    /// entities' slots overwritten.
    pub open spec fn patch_post(pre: Self, post: Self, entries: Seq<TileEntry<C>>) -> bool {
        let pe = pre.spec_env();
        let qe = post.spec_env();
        let m = pre.index_map();
        &&& Self::frame_fixed(pre, post)
        &&& post.index_map() == m
        &&& qe.positions@ == patched_positions(pe.positions@, m, entries)
        &&& qe.fg_colors@ == patched_fg(pe.fg_colors@, m, entries)
        &&& qe.bg_colors@ == patched_bg(pe.bg_colors@, m, entries)
        &&& qe.uvs == pe.uvs
        &&& qe.positions.spec_len() == pe.positions.spec_len()
    }

    /// The calls a partial patch issues: nothing when no entity changed,
    /// and otherwise one mapped view opened and committed per patched
    /// array (positions, foreground colors, background colors); the
    /// writes in between go through the views, not through device calls.
    pub open spec fn patch_cmds(pre: Self, k: nat) -> Seq<DeviceCommand> {
        let env = pre.spec_env();
        let n = env.positions.spec_len();
        if k == 0 {
            Seq::empty()
        } else {
            ssbo_map_cmds(env.positions.spec_id(), n) + ssbo_map_cmds(env.fg_colors.spec_id(), n)
                + ssbo_map_cmds(env.bg_colors.spec_id(), n) + ssbo_unmap_cmds(
                env.positions.spec_id(),
            ) + ssbo_unmap_cmds(env.fg_colors.spec_id()) + ssbo_unmap_cmds(
                env.bg_colors.spec_id(),
            )
        }
    }

    /// Whether some changed entry's position is unknown to the index.
    pub open spec fn has_unknown_position(self, entries: Seq<TileEntry<C>>) -> bool {
        exists|i: int|
            0 <= i < entries.len() && !self.index_map().contains_key(
                entry_key(#[trigger] entries[i]),
            )
    }

    /// Performs a partial patch: looks up each changed entity's slot in
    /// the index and overwrites exactly that slot of the position and
    /// color arrays through mapped views. A changed entity whose position
    /// the index does not know is a protocol violation: the patch fails
    /// before touching anything, and the caller must stop rather than
    /// skip it.
    pub fn partial_patch(&mut self, changed: &Vec<TileEntry<C>>) -> (r: Result<
        Vec<DeviceCommand>,
        SyncError,
    >)
        requires
            old(self).wf(),
        ensures
            final(self).wf(),
            r is Err <==> old(self).has_unknown_position(changed@),
            r is Err ==> *final(self) == *old(self) && (exists|i: int|
                0 <= i < changed@.len() && !old(self).index_map().contains_key(
                    entry_key(#[trigger] changed@[i]),
                ) && r->Err_0 == (SyncError::MissingSlot {
                    x: changed@[i].x,
                    y: changed@[i].y,
                })),
            r is Ok ==> Self::patch_post(*old(self), *final(self), changed@) && r->Ok_0@
                == Self::patch_cmds(*old(self), changed@.len() as nat),
    {
        let ghost gchanged = changed@;
        let ghost m = self.index_map();
        let n = changed.len();
        for i in 0..n
            invariant
                old(self).wf(),
                gchanged == changed@,
                n == gchanged.len(),
                m == self.index_map(),
                *self == *old(self),
                forall|j: int|
                    0 <= j < i ==> m.contains_key(entry_key(#[trigger] gchanged[j])),
        {
            let e = changed[i];
            let key = pos_key_of(e.x, e.y);
            if !self.pos_to_index.contains_key(&key) {
                return Err(SyncError::MissingSlot { x: e.x, y: e.y });
            }
        }
        if n == 0 {
            return Ok(Vec::new());
        }
        proof {
            let k0 = entry_key(gchanged[0]);
            assert(m.contains_key(k0));
            assert(self.index_map()[k0] < self.spec_env().positions.spec_len());
        }
        let ghost base_pos = self.spec_env().positions@;
        let ghost base_fg = self.spec_env().fg_colors@;
        let ghost base_bg = self.spec_env().bg_colors@;
        let env = self.program.env_mut();
        proof {
            assert(*env == old(self).spec_env());
            assert(env.positions.spec_len() > 0);
            assert(env.fg_colors.spec_len() > 0);
            assert(env.bg_colors.spec_len() > 0);
        }
        let (vpos_opt, mut cmds) = env.positions.map_mut();
        let (vfg_opt, mut c_fg) = env.fg_colors.map_mut();
        cmds.append(&mut c_fg);
        let mut vpos = vpos_opt.unwrap();
        let mut vfg = vfg_opt.unwrap();
        let (vbg_opt, mut c_bg) = env.bg_colors.map_mut();
        cmds.append(&mut c_bg);
        let mut vbg = vbg_opt.unwrap();
        for i in 0..n
            invariant
                gchanged == changed@,
                n == gchanged.len(),
                m == self.index_map(),
                m == old(self).index_map(),
                self.pos_to_index@ == m,
                forall|j: int|
                    0 <= j < n ==> m.contains_key(entry_key(#[trigger] gchanged[j])),
                forall|k: u64| m.contains_key(k) ==> #[trigger] m[k] < base_pos.len(),
                base_pos.len() == base_fg.len(),
                base_pos.len() == base_bg.len(),
                vpos@ == patched_positions(base_pos, m, gchanged.take(i as int)),
                vfg@ == patched_fg(base_fg, m, gchanged.take(i as int)),
                vbg@ == patched_bg(base_bg, m, gchanged.take(i as int)),
                vpos@.len() == base_pos.len(),
                vfg@.len() == base_fg.len(),
                vbg@.len() == base_bg.len(),
                vpos.spec_buffer_id() == old(self).spec_env().positions.spec_id(),
                vpos.spec_target() == <ShaderStorage as BufferTarget>::target_spec(),
                vfg.spec_buffer_id() == old(self).spec_env().fg_colors.spec_id(),
                vfg.spec_target() == <ShaderStorage as BufferTarget>::target_spec(),
                vbg.spec_buffer_id() == old(self).spec_env().bg_colors.spec_id(),
                vbg.spec_target() == <ShaderStorage as BufferTarget>::target_spec(),
        {
            let e = changed[i];
            let key = pos_key_of(e.x, e.y);
            proof {
                assert(m.contains_key(entry_key(gchanged[i as int])));
                assert(m[key] < base_pos.len());
            }
            let idx = *self.pos_to_index.get(&key).unwrap();
            *vpos.index_mut(idx) = (e.x, e.y);
            *vfg.index_mut(idx) = e.color.fg;
            *vbg.index_mut(idx) = e.color.bg;
            proof {
                let prefix = gchanged.take(i + 1 as int);
                assert(prefix.drop_last() =~= gchanged.take(i as int));
                assert(prefix.last() == gchanged[i as int]);
                assert(idx == m[entry_key(gchanged[i as int])]);
                assert(e == gchanged[i as int]);
            }
        }
        proof {
            assert(gchanged.take(n as int) =~= gchanged);
        }
        let env = self.program.env_mut();
        let mut u_pos = env.positions.unmap(vpos);
        cmds.append(&mut u_pos);
        let mut u_fg = env.fg_colors.unmap(vfg);
        cmds.append(&mut u_fg);
        let mut u_bg = env.bg_colors.unmap(vbg);
        cmds.append(&mut u_bg);
        proof {
            let pre = *old(self);
            let pn = pre.spec_env().positions.spec_len();
            assert(cmds@.len() == 12);
            assert(cmds@.subrange(0, 2) =~= ssbo_map_cmds(pre.spec_env().positions.spec_id(), pn));
            assert(cmds@.subrange(2, 4) =~= ssbo_map_cmds(pre.spec_env().fg_colors.spec_id(), pn));
            assert(cmds@.subrange(4, 6) =~= ssbo_map_cmds(pre.spec_env().bg_colors.spec_id(), pn));
            assert(cmds@.subrange(6, 8) =~= ssbo_unmap_cmds(pre.spec_env().positions.spec_id()));
            assert(cmds@.subrange(8, 10) =~= ssbo_unmap_cmds(pre.spec_env().fg_colors.spec_id()));
            assert(cmds@.subrange(10, 12) =~= ssbo_unmap_cmds(pre.spec_env().bg_colors.spec_id()));
            assert(cmds@ =~= Self::patch_cmds(pre, gchanged.len() as nat));
        }
        Ok(cmds)
    }

    /// The uniform update every frame begins with: the grid dimensions.
    pub open spec fn frame_uniform_cmd(self) -> DeviceCommand {
        DeviceCommand::SetUniform {
            location: self.spec_env().tile_amounts.spec_location(),
            shape: <(i32, i32) as crate::uniform::BoundUniform>::shape_spec(),
        }
    }

    /// The calls every frame ends with: bind the vertex array, the quad
    /// buffer and the program, clear, and draw the quad once per grid
    /// cell. Texture inputs are the executor's own resources; it binds
    /// them alongside these calls.
    pub open spec fn draw_cmds(self) -> Seq<DeviceCommand> {
        seq![
            DeviceCommand::BindVertexArray { array: self.spec_vao().spec_id() },
            DeviceCommand::BindBuffer {
                target: <crate::target::Array as BufferTarget>::target_spec(),
                buffer: self.spec_vbo().spec_id(),
            },
            DeviceCommand::UseProgram { program: self.spec_program_id() },
            DeviceCommand::Clear { mask: 0x4000 },
            DeviceCommand::DrawArraysInstanced {
                mode: 4,
                first: 0,
                count: self.spec_vbo().spec_len() as i32,
                instances: ((self.spec_width() as int) * (self.spec_height() as int)) as i32,
            },
        ]
    }

    /// Synchronizes one frame and plans its draw. Insertions force a full
    /// resync; otherwise modifications are patched in place through the
    /// slot index, and a modification at a position the index does not
    /// know fails the frame as a protocol violation, leaving every buffer
    /// and the index untouched. In every successful frame the call
    /// sequence is the dimensions uniform, the branch's uploads or mapped
    /// writes, and the instanced draw over the whole grid.
    pub fn run(
        &mut self,
        new: &ChangeSet,
        modified: &ChangeSet,
        entities: &Vec<TileEntry<C>>,
        changed: &Vec<TileEntry<C>>,
    ) -> (r: Result<Vec<DeviceCommand>, SyncError>)
        requires
            old(self).wf(),
        ensures
            final(self).wf(),
            r is Err <==> !new.any && modified.any && old(self).has_unknown_position(changed@),
            r is Err ==> *final(self) == *old(self),
            new.any ==> r is Ok && Self::resync_post(*old(self), *final(self), entities@)
                && r->Ok_0@ == seq![old(self).frame_uniform_cmd()] + Self::resync_cmds(
                *old(self),
                entities@.len() as usize,
            ) + final(self).draw_cmds(),
            !new.any && modified.any && r is Ok ==> Self::patch_post(
                *old(self),
                *final(self),
                changed@,
            ) && r->Ok_0@ == seq![old(self).frame_uniform_cmd()] + Self::patch_cmds(
                *old(self),
                changed@.len() as nat,
            ) + final(self).draw_cmds(),
            !new.any && !modified.any ==> r is Ok && *final(self) == *old(self) && r->Ok_0@
                == seq![old(self).frame_uniform_cmd()] + final(self).draw_cmds(),
    {
        let mut cmds: Vec<DeviceCommand> = Vec::new();
        let w = self.width;
        let h = self.height;
        let env = self.program.env_mut();
        cmds.push(env.tile_amounts.set((w as i32, h as i32)));
        proof {
            Program::lemma_env_replaced_id(old(self).program, self.program);
            assert(*self == *old(self));
        }
        if new.any {
            let mut up = self.full_resync(entities);
            cmds.append(&mut up);
        } else if modified.any {
            match self.partial_patch(changed) {
                Ok(mut patch) => {
                    cmds.append(&mut patch);
                },
                Err(e) => {
                    return Err(e);
                },
            }
        }
        let mut tail = self.draw_tail();
        cmds.append(&mut tail);
        Ok(cmds)
    }

    /// Plans the frame-closing calls; see [`Self::draw_cmds`].
    fn draw_tail(&self) -> (cmds: Vec<DeviceCommand>)
        requires
            self.wf(),
        ensures
            cmds@ == self.draw_cmds(),
    {
        let mut cmds: Vec<DeviceCommand> = Vec::new();
        cmds.push(self.vao.bind());
        cmds.push(self.vbo.bind());
        cmds.push(self.program.bind());
        cmds.push(DeviceCommand::Clear { mask: 0x4000 });
        let instances = ((self.width as u64) * (self.height as u64)) as i32;
        cmds.push(
            DeviceCommand::DrawArraysInstanced {
                mode: 4,
                first: 0,
                count: self.vbo.len() as i32,
                instances,
            },
        );
        proof {
            assert(cmds@ =~= self.draw_cmds());
        }
        cmds
    }
}

/// The grid after the tracker wrote the in-bounds entities into it: each
/// `(entity, x, y)` item with `x < width` and `y < height` is written at
/// its cell, in order; out-of-bounds items are ignored.
pub open spec fn tracked_grid(
    base: Seq<u32>,
    width: int,
    height: int,
    items: Seq<(u32, usize, usize)>,
) -> Seq<u32>
    decreases items.len(),
{
    if items.len() == 0 {
        base
    } else {
        let rest = tracked_grid(base, width, height, items.drop_last());
        let item = items.last();
        if item.1 < width && item.2 < height {
            rest.update(AdjacentX::slot_spec(width, height, item.1 as int, item.2 as int), item.0)
        } else {
            rest
        }
    }
}

/// Writes every in-bounds entity's identifier into its grid cell and
/// ignores the rest: the tracker's per-frame update of the entity grid.
pub fn track_positions(grid: &mut GridX<u32>, items: &Vec<(u32, usize, usize)>)
    requires
        old(grid).wf(),
    ensures
        final(grid).wf(),
        final(grid).spec_width() == old(grid).spec_width(),
        final(grid).spec_height() == old(grid).spec_height(),
        final(grid)@ == tracked_grid(
            old(grid)@,
            old(grid).spec_width() as int,
            old(grid).spec_height() as int,
            items@,
        ),
{
    let ghost gitems = items@;
    let (width, height) = grid.dimensions();
    let n = items.len();
    for i in 0..n
        invariant
            gitems == items@,
            n == gitems.len(),
            grid.wf(),
            grid.spec_width() == old(grid).spec_width(),
            grid.spec_height() == old(grid).spec_height(),
            width == grid.spec_width(),
            height == grid.spec_height(),
            grid@ == tracked_grid(
                old(grid)@,
                width as int,
                height as int,
                gitems.take(i as int),
            ),
    {
        let (entity, x, y) = items[i];
        if x < width && y < height {
            grid.set(x, y, entity);
        }
        proof {
            let prefix = gitems.take(i + 1 as int);
            assert(prefix.drop_last() =~= gitems.take(i as int));
            assert(prefix.last() == gitems[i as int]);
        }
    }
    proof {
        assert(gitems.take(n as int) =~= gitems);
    }
}

/// A cell's tile after a border piece is placed on it: a border cell
/// absorbs the piece side by side, and an air cell becomes the piece.
pub open spec fn merge_border(t: Tile, b: BorderTile) -> Tile {
    match t {
        Tile::Border(prev) => Tile::Border(prev.union_spec(b)),
        Tile::Air => Tile::Border(b),
    }
}

/// The border placements of a rectangular room with corners `p1` and
/// `p2`, in placement order: vertical-run pieces along the bottom and top
/// edges, horizontal-run pieces along the left and right edges, then the
/// four corner bends.
pub open spec fn room_placements(p1: (usize, usize), p2: (usize, usize)) -> Seq<
    ((usize, usize), BorderTile),
> {
    let min_x = if p1.0 < p2.0 {
        p1.0
    } else {
        p2.0
    };
    let max_x = if p1.0 < p2.0 {
        p2.0
    } else {
        p1.0
    };
    let min_y = if p1.1 < p2.1 {
        p1.1
    } else {
        p2.1
    };
    let max_y = if p1.1 < p2.1 {
        p2.1
    } else {
        p1.1
    };
    let start_x = if min_x + 1 < max_x {
        (min_x + 1) as usize
    } else {
        max_x
    };
    let start_y = if min_y + 1 < max_y {
        (min_y + 1) as usize
    } else {
        max_y
    };
    let vertical = BorderTile { top: true, bottom: true, left: false, right: false };
    let horizontal = BorderTile { top: false, bottom: false, left: true, right: true };
    let xs = Seq::new(2 * (max_x - start_x) as nat, |i: int|
        if i % 2 == 0 {
            (((start_x + i / 2) as usize, min_y), vertical)
        } else {
            (((start_x + i / 2) as usize, max_y), vertical)
        });
    let ys = Seq::new(2 * (max_y - start_y) as nat, |i: int|
        if i % 2 == 0 {
            ((min_x, (start_y + i / 2) as usize), horizontal)
        } else {
            ((max_x, (start_y + i / 2) as usize), horizontal)
        });
    xs + ys + seq![
        ((min_x, min_y), BorderTile { top: true, bottom: false, left: false, right: true }),
        ((min_x, max_y), BorderTile { top: false, bottom: true, left: false, right: true }),
        ((max_x, min_y), BorderTile { top: true, bottom: false, left: true, right: false }),
        ((max_x, max_y), BorderTile { top: false, bottom: true, left: true, right: false }),
    ]
}

/// The tile grid after a sequence of border placements is merged into it,
/// in order.
pub open spec fn placed_tiles(
    base: Seq<Tile>,
    width: int,
    height: int,
    ps: Seq<((usize, usize), BorderTile)>,
) -> Seq<Tile>
    decreases ps.len(),
{
    if ps.len() == 0 {
        base
    } else {
        let rest = placed_tiles(base, width, height, ps.drop_last());
        let p = ps.last();
        let slot = AdjacentX::slot_spec(width, height, p.0.0 as int, p.0.1 as int);
        rest.update(slot, merge_border(rest[slot], p.1))
    }
}

/// Every placement of a room lies within the rectangle spanned by its
/// two corners.
pub proof fn lemma_room_placements_bounds(p1: (usize, usize), p2: (usize, usize), w: int, h: int)
    requires
        p1.0 < w,
        p2.0 < w,
        p1.1 < h,
        p2.1 < h,
    ensures
        forall|i: int|
            0 <= i < room_placements(p1, p2).len() ==> (#[trigger] room_placements(p1, p2)[i]).0.0
                < w && room_placements(p1, p2)[i].0.1 < h,
{
}

/// Computes the border placements of a rectangular room, in placement
/// order.
pub fn room_borders(p1: (usize, usize), p2: (usize, usize)) -> (r: Vec<
    ((usize, usize), BorderTile),
>)
    requires
        p1.0 < usize::MAX,
        p1.1 < usize::MAX,
        p2.0 < usize::MAX,
        p2.1 < usize::MAX,
    ensures
        r@ == room_placements(p1, p2),
{
    let min_x = if p1.0 < p2.0 {
        p1.0
    } else {
        p2.0
    };
    let max_x = if p1.0 < p2.0 {
        p2.0
    } else {
        p1.0
    };
    let min_y = if p1.1 < p2.1 {
        p1.1
    } else {
        p2.1
    };
    let max_y = if p1.1 < p2.1 {
        p2.1
    } else {
        p1.1
    };
    let start_x = if min_x + 1 < max_x {
        min_x + 1
    } else {
        max_x
    };
    let start_y = if min_y + 1 < max_y {
        min_y + 1
    } else {
        max_y
    };
    let ghost spec_ps = room_placements(p1, p2);
    let ghost xs_len = 2 * (max_x - start_x) as int;
    let ghost ys_len = 2 * (max_y - start_y) as int;
    let mut r: Vec<((usize, usize), BorderTile)> = Vec::new();
    let mut x = start_x;
    while x < max_x
        invariant
            start_x <= x,
            x <= max_x,
            max_x < usize::MAX,
            min_x == (if p1.0 < p2.0 { p1.0 } else { p2.0 }),
            max_x == (if p1.0 < p2.0 { p2.0 } else { p1.0 }),
            min_y == (if p1.1 < p2.1 { p1.1 } else { p2.1 }),
            max_y == (if p1.1 < p2.1 { p2.1 } else { p1.1 }),
            start_x == (if min_x + 1 < max_x { (min_x + 1) as usize } else { max_x }),
            start_y == (if min_y + 1 < max_y { (min_y + 1) as usize } else { max_y }),
            spec_ps == room_placements(p1, p2),
            xs_len == 2 * (max_x - start_x),
            r@.len() == 2 * (x - start_x),
            forall|j: int| 0 <= j < r@.len() ==> r@[j] == spec_ps[j],
        decreases max_x - x,
    {
        r.push(((x, min_y), BorderTile::new(true, true, false, false)));
        r.push(((x, max_y), BorderTile::new(true, true, false, false)));
        proof {
            let j0 = 2 * (x - start_x) as int;
            assert(j0 % 2 == 0 && (j0 + 1) % 2 == 1);
            assert(j0 / 2 == x - start_x && (j0 + 1) / 2 == x - start_x);
            assert(r@[j0] == spec_ps[j0]);
            assert(r@[j0 + 1] == spec_ps[j0 + 1]);
        }
        x = x + 1;
    }
    let mut y = start_y;
    while y < max_y
        invariant
            start_y <= y,
            y <= max_y,
            max_y < usize::MAX,
            min_x == (if p1.0 < p2.0 { p1.0 } else { p2.0 }),
            max_x == (if p1.0 < p2.0 { p2.0 } else { p1.0 }),
            min_y == (if p1.1 < p2.1 { p1.1 } else { p2.1 }),
            max_y == (if p1.1 < p2.1 { p2.1 } else { p1.1 }),
            start_x == (if min_x + 1 < max_x { (min_x + 1) as usize } else { max_x }),
            start_y == (if min_y + 1 < max_y { (min_y + 1) as usize } else { max_y }),
            spec_ps == room_placements(p1, p2),
            xs_len == 2 * (max_x - start_x),
            ys_len == 2 * (max_y - start_y),
            r@.len() == xs_len + 2 * (y - start_y),
            forall|j: int| 0 <= j < r@.len() ==> r@[j] == spec_ps[j],
        decreases max_y - y,
    {
        r.push(((min_x, y), BorderTile::new(false, false, true, true)));
        r.push(((max_x, y), BorderTile::new(false, false, true, true)));
        proof {
            let j0 = xs_len + 2 * (y - start_y) as int;
            let k0 = j0 - xs_len;
            assert(k0 % 2 == 0 && (k0 + 1) % 2 == 1);
            assert(k0 / 2 == y - start_y && (k0 + 1) / 2 == y - start_y);
            assert(r@[j0] == spec_ps[j0]);
            assert(r@[j0 + 1] == spec_ps[j0 + 1]);
        }
        y = y + 1;
    }
    r.push(((min_x, min_y), BorderTile::new(true, false, false, true)));
    r.push(((min_x, max_y), BorderTile::new(false, true, false, true)));
    r.push(((max_x, min_y), BorderTile::new(true, false, true, false)));
    r.push(((max_x, max_y), BorderTile::new(false, true, true, false)));
    proof {
        assert(r@ =~= spec_ps);
    }
    r
}

/// Draws a rectangular room's border into the tile grid: runs of border
/// pieces along the four edges and a bend at each corner, merged into
/// whatever borders the cells already carry. Both corners must lie on
/// the grid.
pub fn place_room(tiles: &mut GridX<Tile>, p1: (usize, usize), p2: (usize, usize))
    requires
        old(tiles).wf(),
        p1.0 < old(tiles).spec_width(),
        p2.0 < old(tiles).spec_width(),
        p1.1 < old(tiles).spec_height(),
        p2.1 < old(tiles).spec_height(),
    ensures
        final(tiles).wf(),
        final(tiles).spec_width() == old(tiles).spec_width(),
        final(tiles).spec_height() == old(tiles).spec_height(),
        final(tiles)@ == placed_tiles(
            old(tiles)@,
            old(tiles).spec_width() as int,
            old(tiles).spec_height() as int,
            room_placements(p1, p2),
        ),
{
    let ghost w = old(tiles).spec_width() as int;
    let ghost h = old(tiles).spec_height() as int;
    let ghost spec_ps = room_placements(p1, p2);
    proof {
        lemma_room_placements_bounds(p1, p2, w, h);
    }
    let (width, height) = tiles.dimensions();
    let ps = room_borders(p1, p2);
    let n = ps.len();
    for i in 0..n
        invariant
            n == ps@.len(),
            ps@ == spec_ps,
            spec_ps == room_placements(p1, p2),
            tiles.wf(),
            tiles.spec_width() == old(tiles).spec_width(),
            tiles.spec_height() == old(tiles).spec_height(),
            width == tiles.spec_width(),
            height == tiles.spec_height(),
            w == width as int,
            h == height as int,
            forall|j: int|
                0 <= j < spec_ps.len() ==> (#[trigger] spec_ps[j]).0.0 < w && spec_ps[j].0.1 < h,
            tiles@ == placed_tiles(old(tiles)@, w, h, spec_ps.take(i as int)),
    {
        let ((x, y), border) = ps[i];
        let cell = *tiles.index(x, y);
        let merged = match cell.as_border() {
            Option::Some(prev) => Tile::Border(prev.bitor(border)),
            Option::None => Tile::Border(border),
        };
        tiles.set(x, y, merged);
        proof {
            let prefix = spec_ps.take(i + 1 as int);
            assert(prefix.drop_last() =~= spec_ps.take(i as int));
            assert(prefix.last() == spec_ps[i as int]);
            assert(merged == merge_border(
                placed_tiles(old(tiles)@, w, h, spec_ps.take(i as int))[AdjacentX::slot_spec(
                    w,
                    h,
                    x as int,
                    y as int,
                )],
                border,
            ));
        }
    }
    proof {
        assert(spec_ps.take(n as int) =~= spec_ps);
    }
}

} // verus!
