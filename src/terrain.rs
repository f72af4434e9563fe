use vstd::prelude::*;

use crate::buffer::{BackedBuffer, BufferUpload, lemma_clear_then_pushes, pushes, upload_for};
use crate::commands::{BindingRef, BufferRef, PipelineKind, RenderCommand, RenderPass, draw_call_count};
use crate::pipeline::{
    BinderLayouts, ColorTarget, CompareFunction, DepthFormat, DepthState, Face, FragmentDesc, PipelineDesc,
    PipelineError, RenderPipelineBuilder, VertexDesc, VertexLayouts, binders_for,
};
use crate::world::TerrainTile;

verus! {

/// Vertex `j` (of six) of the two triangles of grid cell `(x, z)` in a tile
/// `n` points wide: `(i, i+n+1, i+1)` and `(i, i+n, i+n+1)` for the cell's
/// first point `i = x + z*n`, both wound the same way.
pub open spec fn cell_corner(n: int, x: int, z: int, j: int) -> int {
    let i = x + z * n;
    if j == 0 || j == 3 {
        i
    } else if j == 1 || j == 5 {
        i + n + 1
    } else if j == 2 {
        i + 1
    } else {
        i + n
    }
}

/// Entry `k` of the index list of a tile `n` points wide: cells run row by row,
/// six entries each.
pub open spec fn tile_index(n: int, k: int) -> int {
    let cell = k / 6;
    cell_corner(n, cell % (n - 1), cell / (n - 1), k % 6)
}

/// Length of the index list of a tile `n` points wide: six per cell.
pub open spec fn tile_index_count(n: int) -> int {
    6 * ((n - 1) * (n - 1))
}

proof fn lemma_cell_entry(n: int, x: int, z: int, j: int)
    requires
        n >= 2,
        0 <= x < n - 1,
        0 <= z < n - 1,
        0 <= j < 6,
    ensures
        tile_index(n, 6 * (z * (n - 1) + x) + j) == cell_corner(n, x, z, j),
        0 <= cell_corner(n, x, z, j) < n * n,
        0 <= 6 * (z * (n - 1) + x) + j < tile_index_count(n),
{
    let c = z * (n - 1) + x;
    assert(c >= 0) by (nonlinear_arith)
        requires
            c == z * (n - 1) + x,
            z >= 0,
            x >= 0,
            n >= 2,
    ;
    vstd::arithmetic::div_mod::lemma_fundamental_div_mod_converse(6 * c + j, 6, c, j);
    vstd::arithmetic::div_mod::lemma_fundamental_div_mod_converse(c, n - 1, z, x);
    assert(x + z * n + n + 1 <= n * n - 1) by (nonlinear_arith)
        requires
            0 <= x < n - 1,
            0 <= z < n - 1,
    ;
    assert(x + z * n >= 0) by (nonlinear_arith)
        requires
            x >= 0,
            z >= 0,
            n >= 2,
    ;
    assert(c < (n - 1) * (n - 1)) by (nonlinear_arith)
        requires
            c == z * (n - 1) + x,
            0 <= x < n - 1,
            0 <= z < n - 1,
    ;
}

/// The index list of a tile `n` points wide has six entries per grid cell,
/// `6 × (n-1)²` in all, and every entry names one of the `n²` grid points.
/// This holds for every width; [`tile_indices`] produces exactly this list
/// wherever its entries fit in 32 bits.
pub proof fn lemma_tile_indices_in_grid(n: int)
    requires
        n >= 1,
    ensures
        tile_index_count(n) == 6 * (n - 1) * (n - 1),
        forall|k: int|
            0 <= k < tile_index_count(n) ==> 0 <= #[trigger] tile_index(n, k) < n * n,
{
    assert(6 * ((n - 1) * (n - 1)) == 6 * (n - 1) * (n - 1)) by (nonlinear_arith);
    assert forall|k: int| 0 <= k < tile_index_count(n) implies 0 <= #[trigger] tile_index(n, k)
        < n * n by {
        let c = k / 6;
        let j = k % 6;
        assert(n >= 2) by (nonlinear_arith)
            requires
                0 <= k < 6 * ((n - 1) * (n - 1)),
                n >= 1,
        ;
        vstd::arithmetic::div_mod::lemma_fundamental_div_mod(k, 6);
        let x = c % (n - 1);
        let z = c / (n - 1);
        vstd::arithmetic::div_mod::lemma_fundamental_div_mod(c, n - 1);
        assert(0 <= c < (n - 1) * (n - 1)) by (nonlinear_arith)
            requires
                c == k / 6,
                k == 6 * c + j,
                0 <= j < 6,
                0 <= k < 6 * ((n - 1) * (n - 1)),
        ;
        assert(0 <= z < n - 1) by (nonlinear_arith)
            requires
                c == (n - 1) * z + x,
                0 <= x < n - 1,
                0 <= c < (n - 1) * (n - 1),
        ;
        assert(c == z * (n - 1) + x) by (nonlinear_arith)
            requires
                c == (n - 1) * z + x,
        ;
        lemma_cell_entry(n, x, z, j);
    }
}

/// The index list that triangulates a `tile_size × tile_size` height grid: two
/// triangles per cell, every triangle wound the same way.
pub fn tile_indices(tile_size: u32) -> (r: Vec<u32>)
    requires
        tile_size >= 1,
        tile_size as int * tile_size as int <= u32::MAX as int + 1,
    ensures
        r@.len() == tile_index_count(tile_size as int),
        forall|k: int| 0 <= k < r@.len() ==> #[trigger] r@[k] as int == tile_index(tile_size as int, k),
        forall|k: int| 0 <= k < r@.len() ==> #[trigger] r@[k] < tile_size as int * tile_size as int,
{
    let n = tile_size;
    let m = tile_size - 1;
    let ghost ni = n as int;
    let mut r: Vec<u32> = Vec::new();
    let mut z: u32 = 0;
    while z < m
        invariant
            n == tile_size,
            m == n - 1,
            n >= 1,
            ni == n as int,
            ni * ni <= u32::MAX as int + 1,
            z <= m,
            r@.len() == 6 * (z as int * m as int),
            forall|k: int| 0 <= k < r@.len() ==> #[trigger] r@[k] as int == tile_index(ni, k),
            forall|k: int| 0 <= k < r@.len() ==> #[trigger] r@[k] < ni * ni,
        decreases m - z,
    {
        let mut x: u32 = 0;
        while x < m
            invariant
                n == tile_size,
                m == n - 1,
                ni == n as int,
                ni * ni <= u32::MAX as int + 1,
                z < m,
                x <= m,
                r@.len() == 6 * (z as int * m as int + x as int),
                forall|k: int| 0 <= k < r@.len() ==> #[trigger] r@[k] as int == tile_index(ni, k),
                forall|k: int| 0 <= k < r@.len() ==> #[trigger] r@[k] < ni * ni,
            decreases m - x,
        {
            proof {
                lemma_cell_entry(ni, x as int, z as int, 5);
            }
            let i = x + z * n;
            let ghost before = r@;
            r.push(i);
            r.push(i + n + 1);
            r.push(i + 1);
            r.push(i);
            r.push(i + n);
            r.push(i + n + 1);
            proof {
                let base = 6 * (z as int * m as int + x as int);
                assert forall|k: int| 0 <= k < r@.len() implies #[trigger] r@[k] as int == tile_index(ni, k)
                    && r@[k] < ni * ni by {
                    if k >= base {
                        lemma_cell_entry(ni, x as int, z as int, k - base);
                    } else {
                        assert(r@[k] == before[k]);
                    }
                }
            }
            x = x + 1;
        }
        assert(6 * (z as int * m as int + m as int) == 6 * ((z as int + 1) * m as int))
            by (nonlinear_arith);
        z = z + 1;
    }
    r
}

/// World-space origin of one drawn tile, in grid points.
#[derive(Clone, Copy, Debug, PartialEq, Eq, Structural)]
pub struct TileInstance {
    pub x: u64,
    pub z: u64,
}

/// Origin of `tile` when tiles are `tile_size` points wide and share their edges.
pub open spec fn tile_origin(tile: TerrainTile, tile_size: u32) -> TileInstance {
    TileInstance {
        x: (tile.id.0 as int * (tile_size as int - 1)) as u64,
        z: (tile.id.1 as int * (tile_size as int - 1)) as u64,
    }
}

/// Per-terrain GPU state: the shared index list of one tile, and the growable
/// list of tiles to draw this frame.
pub struct TerrainBuffer {
    indices: BackedBuffer<u32>,
    tiles: BackedBuffer<TileInstance>,
    tile_size: u32,
}

impl TerrainBuffer {
    pub closed spec fn spec_tile_size(&self) -> u32 {
        self.tile_size
    }

    pub closed spec fn spec_tiles(&self) -> BackedBuffer<TileInstance> {
        self.tiles
    }

    /// The tiles buffered for drawing.
    pub fn tiles(&self) -> (r: &BackedBuffer<TileInstance>)
        ensures
            *r == self.spec_tiles(),
            self.wf() ==> r.wf(),
    {
        &self.tiles
    }

    pub closed spec fn spec_indices(&self) -> Seq<u32> {
        self.indices@
    }

    pub closed spec fn spec_index_buffer(&self) -> BackedBuffer<u32> {
        self.indices
    }

    /// Sizes stay valid and the index list triangulates the tile.
    pub closed spec fn wf(&self) -> bool {
        &&& self.tile_size >= 1
        &&& self.tile_size as int * self.tile_size as int <= u32::MAX as int + 1
        &&& self.indices.wf()
        &&& self.tiles.wf()
        &&& self.indices@.len() == tile_index_count(self.tile_size as int)
        &&& forall|k: int|
            0 <= k < self.indices@.len() ==> #[trigger] self.indices@[k] as int == tile_index(
                self.tile_size as int,
                k,
            )
    }

    /// A terrain whose tiles are `tile_size` points wide, with its index list
    /// and an empty tile list (room for eight), both still to be uploaded.
    pub fn new(tile_size: u32) -> (r: Self)
        requires
            tile_size >= 1,
            tile_size as int * tile_size as int <= u32::MAX as int + 1,
        ensures
            r.wf(),
            r.spec_tile_size() == tile_size,
            r.spec_indices().len() == tile_index_count(tile_size as int),
            forall|k: int|
                0 <= k < r.spec_indices().len() ==> #[trigger] r.spec_indices()[k] as int == tile_index(
                    tile_size as int,
                    k,
                ),
            r.spec_tiles()@ == Seq::<TileInstance>::empty(),
            r.spec_tiles().spec_capacity() == 8,
            r.spec_tiles().spec_reallocate(),
            r.spec_tiles().spec_dirty_from() == 0,
            r.spec_index_buffer()@ == r.spec_indices(),
            r.spec_index_buffer().spec_capacity() == r.spec_indices().len(),
            r.spec_index_buffer().spec_dirty_from() == 0,
            r.spec_index_buffer().spec_reallocate(),
    {
        let indices = BackedBuffer::with_data(tile_indices(tile_size));
        let tiles = BackedBuffer::with_capacity(8);
        TerrainBuffer { indices, tiles, tile_size }
    }

    pub fn tile_size(&self) -> (r: u32)
        ensures
            r == self.spec_tile_size(),
    {
        self.tile_size
    }

    /// Number of entries in the tile's index list.
    pub fn index_count(&self) -> (r: usize)
        ensures
            r == self.spec_indices().len(),
    {
        self.indices.len()
    }

    /// The tile's index list.
    pub fn indices(&self) -> (r: &[u32])
        ensures
            r@ == self.spec_indices(),
    {
        self.indices.as_slice()
    }

    /// Hands out the upload of the index list that is still pending, if any.
    pub fn flush_indices(&mut self) -> (u: BufferUpload)
        requires
            old(self).wf(),
        ensures
            final(self).wf(),
            u == upload_for(
                old(self).spec_index_buffer().spec_reallocate(),
                old(self).spec_index_buffer().spec_capacity(),
                old(self).spec_index_buffer().spec_dirty_from(),
                old(self).spec_indices().len(),
            ),
            final(self).spec_tile_size() == old(self).spec_tile_size(),
            final(self).spec_indices() == old(self).spec_indices(),
            final(self).spec_tiles() == old(self).spec_tiles(),
            !final(self).spec_index_buffer().spec_reallocate(),
    {
        self.indices.flush()
    }

    /// Hands out the upload of the tile list that is still pending, if any.
    pub fn flush_tiles(&mut self) -> (u: BufferUpload)
        requires
            old(self).wf(),
        ensures
            final(self).wf(),
            u == upload_for(
                old(self).spec_tiles().spec_reallocate(),
                old(self).spec_tiles().spec_capacity(),
                old(self).spec_tiles().spec_dirty_from(),
                old(self).spec_tiles()@.len(),
            ),
            final(self).spec_tile_size() == old(self).spec_tile_size(),
            final(self).spec_indices() == old(self).spec_indices(),
            final(self).spec_tiles()@ == old(self).spec_tiles()@,
            final(self).spec_tiles().spec_capacity() == old(self).spec_tiles().spec_capacity(),
            !final(self).spec_tiles().spec_reallocate(),
    {
        self.tiles.flush()
    }

    /// Replaces the drawn tiles by `tiles`, one origin each, in order: clears
    /// the tile list, appends in one batch and closes it. Returns the upload
    /// the batch calls for.
    pub fn update_tiles(&mut self, tiles: &Vec<TerrainTile>) -> (u: BufferUpload)
        requires
            old(self).wf(),
        ensures
            final(self).wf(),
            final(self).spec_tile_size() == old(self).spec_tile_size(),
            final(self).spec_indices() == old(self).spec_indices(),
            final(self).spec_tiles()@ == tiles@.map_values(
                |t: TerrainTile| tile_origin(t, old(self).spec_tile_size()),
            ),
            final(self).spec_tiles().spec_capacity() >= old(self).spec_tiles().spec_capacity(),
            u.end == tiles@.len(),
            u.start == 0,
            u.capacity == final(self).spec_tiles().spec_capacity(),
            u.reallocate == (old(self).spec_tiles().spec_reallocate() || final(self).spec_tiles().spec_capacity()
                != old(self).spec_tiles().spec_capacity()),
            final(self).spec_tiles()@.len() <= final(self).spec_tiles().spec_capacity(),
            !final(self).spec_tiles().spec_reallocate(),
    {
        let ghost origins = tiles@.map_values(|t: TerrainTile| tile_origin(t, self.tile_size));
        let ghost cap0 = self.tiles.spec_capacity();
        let ghost realloc0 = self.tiles.spec_reallocate();
        self.tiles.clear();
        let step = (self.tile_size - 1) as u64;
        let mut i: usize = 0;
        while i < tiles.len()
            invariant
                self.wf(),
                self.spec_tile_size() == old(self).spec_tile_size(),
                self.spec_indices() == old(self).spec_indices(),
                origins == tiles@.map_values(|t: TerrainTile| tile_origin(t, self.tile_size)),
                step == self.tile_size - 1,
                i <= tiles@.len(),
                self.tiles@ == origins.subrange(0, i as int),
                self.tiles.spec_dirty_from() == 0,
                self.tiles.spec_capacity() >= cap0,
                self.tiles.spec_reallocate() == (realloc0 || self.tiles.spec_capacity() != cap0),
            decreases tiles@.len() - i,
        {
            let t = tiles[i];
            assert(t.id.0 as int * step as int <= u64::MAX) by (nonlinear_arith)
                requires
                    t.id.0 <= u32::MAX,
                    step <= u32::MAX,
            ;
            assert(t.id.1 as int * step as int <= u64::MAX) by (nonlinear_arith)
                requires
                    t.id.1 <= u32::MAX,
                    step <= u32::MAX,
            ;
            let origin = TileInstance { x: t.id.0 as u64 * step, z: t.id.1 as u64 * step };
            self.tiles.push(origin);
            i = i + 1;
            assert(self.tiles@ =~= origins.subrange(0, i as int));
        }
        assert(origins.subrange(0, tiles@.len() as int) =~= origins);
        let u = self.tiles.flush();
        proof {
            self.tiles.lemma_len_within_capacity();
        }
        u
    }
}

/// The commands that draw every buffered tile of terrain `id` in one
/// instanced, indexed call; the texture binding is left out in debug mode.
pub open spec fn terrain_draw_commands(
    id: usize,
    camera: BindingRef,
    textures: Option<BindingRef>,
    index_count: usize,
    instance_count: usize,
) -> Seq<RenderCommand> {
    let pipeline = if textures is Some {
        PipelineKind::TerrainShaded
    } else {
        PipelineKind::TerrainDebug
    };
    let head = seq![
        RenderCommand::SetPipeline(pipeline),
        RenderCommand::SetBindGroup { slot: 0, binding: BindingRef::TerrainUniform(id) },
        RenderCommand::SetBindGroup { slot: 1, binding: camera },
    ];
    let bound = if textures is Some {
        head.push(RenderCommand::SetBindGroup { slot: 2, binding: textures->0 })
    } else {
        head
    };
    bound + seq![
        RenderCommand::SetIndexBuffer(BufferRef::TerrainIndices(id)),
        RenderCommand::SetVertexBuffer { slot: 0, buffer: BufferRef::TerrainTiles(id) },
        RenderCommand::DrawIndexed { index_count, instance_count },
    ]
}

/// What drawing terrain `id` adds to a pass: nothing when no tile is buffered.
pub open spec fn terrain_draw(
    id: usize,
    camera: BindingRef,
    textures: Option<BindingRef>,
    buffer: TerrainBuffer,
) -> Seq<RenderCommand> {
    if buffer.spec_tiles()@.len() == 0 {
        Seq::empty()
    } else {
        terrain_draw_commands(
            id,
            camera,
            textures,
            buffer.spec_indices().len() as usize,
            buffer.spec_tiles()@.len() as usize,
        )
    }
}

/// Shader module of the terrain pipelines.
pub const TERRAIN_SHADER: &'static str = "shaders/terrain.wgsl";

/// The two terrain pipelines: textured, lit shading and flat debug shading.
pub struct TerrainPipeline {
    pub triplanar: PipelineDesc,
    pub debug: PipelineDesc,
}

/// Whether `d` is a terrain pipeline that binds `layouts` (layout `i` at group
/// `i`) and shades with `fragment_entry`: vertex stage `displace_terrain` of the
/// terrain shader over per-instance tile origins, back faces culled, depth
/// tested with `Less` on a `Depth32Float` target, one replacing color target.
pub open spec fn is_terrain_pipeline(
    d: PipelineDesc,
    layouts: Seq<BinderLayouts>,
    fragment_entry: Seq<char>,
) -> bool {
    &&& d.label is None
    &&& d.binders@ == binders_for(layouts)
    &&& d.vertex.shader@ == TERRAIN_SHADER@
    &&& d.vertex.entry_point@ == "displace_terrain"@
    &&& d.vertex.buffer_layouts@ == seq![VertexLayouts::TileInstance]
    &&& d.depth == Some(
        DepthState { format: DepthFormat::Depth32Float, compare: CompareFunction::Less },
    )
    &&& d.cull_mode == Some(Face::Back)
    &&& d.fragment is Some
    &&& d.fragment->0.entry_point@ == fragment_entry
    &&& d.fragment->0.targets@ == seq![ColorTarget::Replace]
}

/// Both terrain pipelines as [`TerrainPipeline::new`] builds them: the textured
/// one binds the terrain uniform, the camera and the texture array and shades
/// with `triplanar_shaded`; the debug one binds the first two and shades with
/// `debug`.
pub open spec fn terrain_pipelines_as_built(p: TerrainPipeline) -> bool {
    &&& is_terrain_pipeline(
        p.triplanar,
        seq![
            BinderLayouts::TerrainUniform,
            BinderLayouts::Camera,
            BinderLayouts::SampledTextureArray,
        ],
        "triplanar_shaded"@,
    )
    &&& is_terrain_pipeline(
        p.debug,
        seq![BinderLayouts::TerrainUniform, BinderLayouts::Camera],
        "debug"@,
    )
}

fn terrain_pipeline_desc(layouts: Vec<BinderLayouts>, fragment_entry: &str) -> (r: Result<
    PipelineDesc,
    PipelineError,
>)
    ensures
        r is Ok,
        is_terrain_pipeline(r->Ok_0, layouts@, fragment_entry@),
{
    let mut buffers: Vec<VertexLayouts> = Vec::new();
    buffers.push(VertexLayouts::TileInstance);
    let mut targets: Vec<ColorTarget> = Vec::new();
    targets.push(ColorTarget::Replace);
    assert(buffers@ =~= seq![VertexLayouts::TileInstance]);
    assert(targets@ =~= seq![ColorTarget::Replace]);
    RenderPipelineBuilder::new().layout(layouts).cull_mode(Some(Face::Back)).vertex(
        VertexDesc {
            shader: String::from_str(TERRAIN_SHADER),
            entry_point: String::from_str("displace_terrain"),
            buffer_layouts: buffers,
        },
    ).depth(DepthFormat::Depth32Float, CompareFunction::Less).fragment(
        FragmentDesc { entry_point: String::from_str(fragment_entry), targets },
    ).build()
}

impl TerrainPipeline {
    /// Builds both terrain pipelines (see [`terrain_pipelines_as_built`]).
    pub fn new() -> (r: Result<Self, PipelineError>)
        ensures
            r is Ok,
            terrain_pipelines_as_built(r->Ok_0),
    {
        let mut full: Vec<BinderLayouts> = Vec::new();
        full.push(BinderLayouts::TerrainUniform);
        full.push(BinderLayouts::Camera);
        full.push(BinderLayouts::SampledTextureArray);
        let mut plain: Vec<BinderLayouts> = Vec::new();
        plain.push(BinderLayouts::TerrainUniform);
        plain.push(BinderLayouts::Camera);
        assert(full@ =~= seq![
            BinderLayouts::TerrainUniform,
            BinderLayouts::Camera,
            BinderLayouts::SampledTextureArray,
        ]);
        assert(plain@ =~= seq![BinderLayouts::TerrainUniform, BinderLayouts::Camera]);
        let triplanar = terrain_pipeline_desc(full, "triplanar_shaded")?;
        let debug = terrain_pipeline_desc(plain, "debug")?;
        Ok(TerrainPipeline { triplanar, debug })
    }

    /// Records the textured draw of terrain `id`: pipeline, bindings at groups
    /// 0/1/2, index and tile buffers, and one instanced draw over all buffered
    /// tiles. Records nothing when no tile is buffered.
    pub fn draw(
        &self,
        pass: &mut RenderPass,
        camera: BindingRef,
        textures: BindingRef,
        id: usize,
        buffer: &TerrainBuffer,
    )
        ensures
            final(pass).kind == old(pass).kind,
            final(pass).commands@ == old(pass).commands@ + terrain_draw(
                id,
                camera,
                Some(textures),
                *buffer,
            ),
    {
        record_terrain(pass, camera, Some(textures), id, buffer)
    }

    /// Records the debug draw of terrain `id`: like [`TerrainPipeline::draw`]
    /// without the texture binding. Records nothing when no tile is buffered.
    pub fn debug(&self, pass: &mut RenderPass, camera: BindingRef, id: usize, buffer: &TerrainBuffer)
        ensures
            final(pass).kind == old(pass).kind,
            final(pass).commands@ == old(pass).commands@ + terrain_draw(id, camera, None, *buffer),
    {
        record_terrain(pass, camera, None, id, buffer)
    }
}

fn record_terrain(
    pass: &mut RenderPass,
    camera: BindingRef,
    textures: Option<BindingRef>,
    id: usize,
    buffer: &TerrainBuffer,
)
    ensures
        final(pass).kind == old(pass).kind,
        final(pass).commands@ == old(pass).commands@ + terrain_draw(id, camera, textures, *buffer),
{
    let instances = buffer.tiles.len();
    if instances == 0 {
        assert(old(pass).commands@ + Seq::<RenderCommand>::empty() =~= old(pass).commands@);
        return ;
    }
    let mut cmds: Vec<RenderCommand> = Vec::new();
    let pipeline = match textures {
        Some(_) => PipelineKind::TerrainShaded,
        None => PipelineKind::TerrainDebug,
    };
    cmds.push(RenderCommand::SetPipeline(pipeline));
    cmds.push(RenderCommand::SetBindGroup { slot: 0, binding: BindingRef::TerrainUniform(id) });
    cmds.push(RenderCommand::SetBindGroup { slot: 1, binding: camera });
    match textures {
        Some(t) => {
            cmds.push(RenderCommand::SetBindGroup { slot: 2, binding: t });
        },
        None => {},
    }
    cmds.push(RenderCommand::SetIndexBuffer(BufferRef::TerrainIndices(id)));
    cmds.push(RenderCommand::SetVertexBuffer { slot: 0, buffer: BufferRef::TerrainTiles(id) });
    cmds.push(
        RenderCommand::DrawIndexed { index_count: buffer.index_count(), instance_count: instances },
    );
    assert(cmds@ =~= terrain_draw(id, camera, textures, *buffer));
    pass.record(cmds);
}

/// Drawing a terrain issues no draw call when no tile is buffered, and
/// otherwise exactly one, which covers every buffered tile with the whole
/// index list.
pub proof fn lemma_terrain_draw_calls(
    id: usize,
    camera: BindingRef,
    textures: Option<BindingRef>,
    buffer: TerrainBuffer,
)
    ensures
        buffer.spec_tiles()@.len() == 0 ==> terrain_draw(id, camera, textures, buffer).len() == 0,
        buffer.spec_tiles()@.len() == 0 ==> draw_call_count(terrain_draw(id, camera, textures, buffer)) == 0,
        buffer.spec_tiles()@.len() > 0 ==> draw_call_count(terrain_draw(id, camera, textures, buffer)) == 1,
        buffer.spec_tiles()@.len() > 0 ==> terrain_draw(id, camera, textures, buffer).last() == (
        RenderCommand::DrawIndexed {
            index_count: buffer.spec_indices().len() as usize,
            instance_count: buffer.spec_tiles()@.len() as usize,
        }),
{
    let cmds = terrain_draw(id, camera, textures, buffer);
    reveal_with_fuel(draw_call_count, 8);
    if buffer.spec_tiles()@.len() > 0 {
        let head = cmds.drop_last().drop_last().drop_last().drop_last().drop_last().drop_last();
        if textures is Some {
            assert(head =~= seq![RenderCommand::SetPipeline(PipelineKind::TerrainShaded)]);
        } else {
            assert(head =~= Seq::<RenderCommand>::empty());
        }
    }
}

} // verus!
