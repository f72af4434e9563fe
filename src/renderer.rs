use vstd::prelude::*;

use crate::buffer::{BackedBuffer, BufferUpload, grown_capacity};
use crate::commands::{BindingRef, BufferRef, PassKind, RenderCommand, RenderPass};
use crate::pipeline::PipelineError;
use crate::terrain::{
    TerrainBuffer, TerrainPipeline, terrain_draw, terrain_pipelines_as_built, tile_index,
    tile_index_count, tile_origin,
};
use crate::text::{
    Font, MAX_TEXT_CHARS, TextBuffer, TextError, TextPipeline, layout, text_draw,
    text_pipeline_as_built,
};
use crate::world::TerrainTile;

verus! {

/// Why the presentation surface gave no frame.
#[derive(Clone, Copy, Debug, PartialEq, Eq, Structural)]
pub enum SurfaceError {
    Timeout,
    /// The surface no longer matches the window (a resize raced the frame).
    Outdated,
    Lost,
    OutOfMemory,
    Other,
}

/// One upload that the device side must perform, and on which buffer.
#[derive(Clone, Copy, Debug, PartialEq, Eq, Structural)]
pub struct PendingUpload {
    pub target: BufferRef,
    pub upload: BufferUpload,
}

/// What to do with the current frame.
pub enum FrameAction {
    /// The surface was outdated: drop this frame, keep all state.
    Skip,
    /// Acquisition failed for good: report it and shut the application down.
    Exit(SurfaceError),
    /// Write both camera uniforms, run the passes in order, submit and present.
    Draw(Vec<RenderPass>),
}

/// Side of a surface extent after clamping to the minimum of one.
pub open spec fn clamp_extent(d: u32) -> u32 {
    if d == 0 {
        1
    } else {
        d
    }
}

/// The world pass's commands: each registered terrain in id order, textured
/// or, in debug mode, with the debug pipeline.
pub open spec fn world_commands(terrains: Seq<TerrainBuffer>, debug_mode_active: bool) -> Seq<
    RenderCommand,
>
    decreases terrains.len(),
{
    if terrains.len() == 0 {
        Seq::empty()
    } else {
        world_commands(terrains.drop_last(), debug_mode_active) + terrain_draw(
            (terrains.len() - 1) as usize,
            BindingRef::WorldCamera,
            if debug_mode_active {
                None
            } else {
                Some(BindingRef::TerrainTextures)
            },
            terrains.last(),
        )
    }
}

/// The overlay pass's commands: each buffered text in id order.
pub open spec fn ui_commands(texts: Seq<TextBuffer>) -> Seq<RenderCommand>
    decreases texts.len(),
{
    if texts.len() == 0 {
        Seq::empty()
    } else {
        ui_commands(texts.drop_last()) + text_draw(
            (texts.len() - 1) as usize,
            BindingRef::UiCamera,
            texts.last(),
        )
    }
}

/// Whether `plan` is the frame for these terrains and texts: the world pass
/// first, then the overlay pass.
pub open spec fn is_frame_plan(
    plan: Seq<RenderPass>,
    terrains: Seq<TerrainBuffer>,
    texts: Seq<TextBuffer>,
    debug_mode_active: bool,
) -> bool {
    &&& plan.len() == 2
    &&& plan[0].kind == PassKind::World
    &&& plan[0].commands@ == world_commands(terrains, debug_mode_active)
    &&& plan[1].kind == PassKind::Ui
    &&& plan[1].commands@ == ui_commands(texts)
}

/// Frame orchestration state: the surface's extent and configuration, the
/// font and pipelines, and the registries of buffered terrains and texts
/// (ids are indices and are never reused). Changes to buffers wait in a
/// queue of uploads for the device side.
///
/// Bindings only ever name fixed-size uniforms and textures; the growable
/// buffers are attached per draw by [`BufferRef`], so growing one never
/// leaves a binding pointing at a dropped device buffer.
pub struct Renderer {
    width: u32,
    height: u32,
    is_surface_configured: bool,
    font: Font,
    terrain_pipeline: TerrainPipeline,
    text_pipeline: TextPipeline,
    terrain_buffers: Vec<TerrainBuffer>,
    text_buffers: Vec<TextBuffer>,
    uploads: Vec<PendingUpload>,
}

impl Renderer {
    pub closed spec fn spec_width(&self) -> u32 {
        self.width
    }

    pub closed spec fn spec_height(&self) -> u32 {
        self.height
    }

    pub closed spec fn spec_configured(&self) -> bool {
        self.is_surface_configured
    }

    pub closed spec fn spec_font(&self) -> Font {
        self.font
    }

    pub closed spec fn spec_terrain_pipeline(&self) -> TerrainPipeline {
        self.terrain_pipeline
    }

    pub closed spec fn spec_text_pipeline(&self) -> TextPipeline {
        self.text_pipeline
    }

    pub closed spec fn spec_terrains(&self) -> Seq<TerrainBuffer> {
        self.terrain_buffers@
    }

    pub closed spec fn spec_texts(&self) -> Seq<TextBuffer> {
        self.text_buffers@
    }

    pub closed spec fn spec_uploads(&self) -> Seq<PendingUpload> {
        self.uploads@
    }

    /// The extent is at least 1×1, the pipelines are as built, and every
    /// buffered terrain and text is valid.
    pub closed spec fn wf(&self) -> bool {
        &&& self.width >= 1
        &&& self.height >= 1
        &&& terrain_pipelines_as_built(self.terrain_pipeline)
        &&& text_pipeline_as_built(self.text_pipeline)
        &&& forall|i: int|
            0 <= i < self.terrain_buffers@.len() ==> (#[trigger] self.terrain_buffers@[i]).wf()
        &&& forall|i: int| 0 <= i < self.text_buffers@.len() ==> (#[trigger] self.text_buffers@[i]).wf()
    }

    /// A renderer for a `width × height` surface (each side at least 1), with
    /// no terrain and no text yet.
    pub fn new(width: u32, height: u32, font: Font, surface_configured: bool) -> (r: Result<
        Self,
        PipelineError,
    >)
        ensures
            r is Ok,
            r->Ok_0.wf(),
            r->Ok_0.spec_width() == clamp_extent(width),
            r->Ok_0.spec_height() == clamp_extent(height),
            r->Ok_0.spec_configured() == surface_configured,
            r->Ok_0.spec_font() == font,
            terrain_pipelines_as_built(r->Ok_0.spec_terrain_pipeline()),
            text_pipeline_as_built(r->Ok_0.spec_text_pipeline()),
            r->Ok_0.spec_terrains().len() == 0,
            r->Ok_0.spec_texts().len() == 0,
            r->Ok_0.spec_uploads().len() == 0,
    {
        let terrain_pipeline = TerrainPipeline::new()?;
        let text_pipeline = TextPipeline::new()?;
        Ok(
            Renderer {
                width: clamp(width),
                height: clamp(height),
                is_surface_configured: surface_configured,
                font,
                terrain_pipeline,
                text_pipeline,
                terrain_buffers: Vec::new(),
                text_buffers: Vec::new(),
                uploads: Vec::new(),
            },
        )
    }

    /// Current surface extent.
    pub fn extent(&self) -> (r: (u32, u32))
        ensures
            r == (self.spec_width(), self.spec_height()),
    {
        (self.width, self.height)
    }

    pub fn is_surface_configured(&self) -> (r: bool)
        ensures
            r == self.spec_configured(),
    {
        self.is_surface_configured
    }

    pub fn font(&self) -> (r: &Font)
        ensures
            *r == self.spec_font(),
    {
        &self.font
    }

    /// The terrain pipelines: both test depth on a `Depth32Float` target.
    pub fn terrain_pipeline(&self) -> (r: &TerrainPipeline)
        ensures
            *r == self.spec_terrain_pipeline(),
            self.wf() ==> terrain_pipelines_as_built(*r),
    {
        &self.terrain_pipeline
    }

    pub fn text_pipeline(&self) -> (r: &TextPipeline)
        ensures
            *r == self.spec_text_pipeline(),
            self.wf() ==> text_pipeline_as_built(*r),
    {
        &self.text_pipeline
    }

    pub fn terrain_count(&self) -> (r: usize)
        ensures
            r == self.spec_terrains().len(),
    {
        self.terrain_buffers.len()
    }

    pub fn text_count(&self) -> (r: usize)
        ensures
            r == self.spec_texts().len(),
    {
        self.text_buffers.len()
    }

    pub fn terrain(&self, id: usize) -> (r: &TerrainBuffer)
        requires
            id < self.spec_terrains().len(),
        ensures
            *r == self.spec_terrains()[id as int],
    {
        &self.terrain_buffers[id]
    }

    pub fn text(&self, id: usize) -> (r: &TextBuffer)
        requires
            id < self.spec_texts().len(),
        ensures
            *r == self.spec_texts()[id as int],
    {
        &self.text_buffers[id]
    }

    /// Takes the new extent (each side clamped to at least 1) and marks the
    /// surface configured. The caller reconfigures the surface and recreates
    /// the depth target (same format) at the returned extent before the next
    /// frame.
    pub fn resize(&mut self, width: u32, height: u32) -> (r: (u32, u32))
        requires
            old(self).wf(),
        ensures
            final(self).wf(),
            r == (clamp_extent(width), clamp_extent(height)),
            final(self).spec_width() == clamp_extent(width),
            final(self).spec_height() == clamp_extent(height),
            final(self).spec_configured(),
            final(self).spec_font() == old(self).spec_font(),
            final(self).spec_terrains() == old(self).spec_terrains(),
            final(self).spec_texts() == old(self).spec_texts(),
            final(self).spec_uploads() == old(self).spec_uploads(),
    {
        self.is_surface_configured = true;
        self.width = clamp(width);
        self.height = clamp(height);
        (self.width, self.height)
    }

    /// Starts a frame. Returns whether the surface must be configured (at the
    /// current extent) before a frame is acquired; it counts as configured after.
    pub fn begin_frame(&mut self) -> (r: bool)
        requires
            old(self).wf(),
        ensures
            final(self).wf(),
            r == !old(self).spec_configured(),
            final(self).spec_configured(),
            final(self).spec_width() == old(self).spec_width(),
            final(self).spec_height() == old(self).spec_height(),
            final(self).spec_font() == old(self).spec_font(),
            final(self).spec_terrains() == old(self).spec_terrains(),
            final(self).spec_texts() == old(self).spec_texts(),
            final(self).spec_uploads() == old(self).spec_uploads(),
    {
        let must_configure = !self.is_surface_configured;
        self.is_surface_configured = true;
        must_configure
    }

    /// Decides the frame from the outcome of acquiring the surface: skip it
    /// when the surface is outdated, exit on any other failure, else draw the
    /// world pass (every terrain, textured or debug) and then the overlay pass
    /// (every text).
    pub fn render(&self, acquired: Result<(), SurfaceError>, debug_mode_active: bool) -> (r:
        FrameAction)
        requires
            self.wf(),
        ensures
            acquired == Err::<(), SurfaceError>(SurfaceError::Outdated) ==> r is Skip,
            acquired is Err && acquired != Err::<(), SurfaceError>(SurfaceError::Outdated) ==> r
                == FrameAction::Exit(acquired->Err_0),
            acquired is Ok ==> r is Draw && is_frame_plan(
                r->Draw_0@,
                self.spec_terrains(),
                self.spec_texts(),
                debug_mode_active,
            ),
    {
        match acquired {
            Err(SurfaceError::Outdated) => {
                return FrameAction::Skip;
            },
            Err(e) => {
                return FrameAction::Exit(e);
            },
            Ok(()) => {},
        }
        let mut world = RenderPass::new(PassKind::World);
        let mut i: usize = 0;
        while i < self.terrain_buffers.len()
            invariant
                i <= self.terrain_buffers@.len(),
                world.kind == PassKind::World,
                world.commands@ == world_commands(
                    self.terrain_buffers@.subrange(0, i as int),
                    debug_mode_active,
                ),
            decreases self.terrain_buffers@.len() - i,
        {
            let buffer = &self.terrain_buffers[i];
            if debug_mode_active {
                self.terrain_pipeline.debug(&mut world, BindingRef::WorldCamera, i, buffer);
            } else {
                self.terrain_pipeline.draw(
                    &mut world,
                    BindingRef::WorldCamera,
                    BindingRef::TerrainTextures,
                    i,
                    buffer,
                );
            }
            assert(self.terrain_buffers@.subrange(0, i + 1).drop_last()
                =~= self.terrain_buffers@.subrange(0, i as int));
            i = i + 1;
        }
        let mut ui = RenderPass::new(PassKind::Ui);
        let mut j: usize = 0;
        while j < self.text_buffers.len()
            invariant
                j <= self.text_buffers@.len(),
                ui.kind == PassKind::Ui,
                ui.commands@ == ui_commands(self.text_buffers@.subrange(0, j as int)),
            decreases self.text_buffers@.len() - j,
        {
            self.text_pipeline.draw_text(&mut ui, j, &self.text_buffers[j], BindingRef::UiCamera);
            assert(self.text_buffers@.subrange(0, j + 1).drop_last() =~= self.text_buffers@.subrange(
                0,
                j as int,
            ));
            j = j + 1;
        }
        assert(self.terrain_buffers@.subrange(0, self.terrain_buffers@.len() as int)
            =~= self.terrain_buffers@);
        assert(self.text_buffers@.subrange(0, self.text_buffers@.len() as int) =~= self.text_buffers@);
        let mut passes: Vec<RenderPass> = Vec::new();
        passes.push(world);
        passes.push(ui);
        FrameAction::Draw(passes)
    }

    /// Hands out every pending upload, oldest first, and forgets them.
    pub fn take_uploads(&mut self) -> (r: Vec<PendingUpload>)
        requires
            old(self).wf(),
        ensures
            final(self).wf(),
            r@ == old(self).spec_uploads(),
            final(self).spec_uploads().len() == 0,
            final(self).spec_width() == old(self).spec_width(),
            final(self).spec_height() == old(self).spec_height(),
            final(self).spec_configured() == old(self).spec_configured(),
            final(self).spec_font() == old(self).spec_font(),
            final(self).spec_terrains() == old(self).spec_terrains(),
            final(self).spec_texts() == old(self).spec_texts(),
    {
        let mut taken: Vec<PendingUpload> = Vec::new();
        std::mem::swap(&mut taken, &mut self.uploads);
        taken
    }

    /// Registers a terrain whose tiles are `tile_size` points wide and returns
    /// its id, the next one in order. Its index list and empty tile list are
    /// queued for creation on the device.
    pub fn buffer_terrain(&mut self, tile_size: u32) -> (id: usize)
        requires
            old(self).wf(),
            tile_size >= 1,
            tile_size as int * tile_size as int <= u32::MAX as int + 1,
        ensures
            final(self).wf(),
            id == old(self).spec_terrains().len(),
            final(self).spec_terrains().len() == old(self).spec_terrains().len() + 1,
            final(self).spec_terrains().subrange(0, id as int) == old(self).spec_terrains(),
            final(self).spec_terrains()[id as int].spec_tile_size() == tile_size,
            final(self).spec_terrains()[id as int].spec_indices().len() == tile_index_count(
                tile_size as int,
            ),
            forall|k: int|
                0 <= k < final(self).spec_terrains()[id as int].spec_indices().len() ==> (
                #[trigger] final(self).spec_terrains()[id as int].spec_indices()[k]) as int
                    == tile_index(tile_size as int, k),
            final(self).spec_terrains()[id as int].spec_tiles()@ == Seq::<
                crate::terrain::TileInstance,
            >::empty(),
            final(self).spec_terrains()[id as int].spec_tiles().spec_capacity() == 8,
            final(self).spec_uploads().len() == old(self).spec_uploads().len() + 2,
            final(self).spec_uploads().subrange(0, old(self).spec_uploads().len() as int)
                == old(self).spec_uploads(),
            final(self).spec_uploads()[old(self).spec_uploads().len() as int] == (PendingUpload {
                target: BufferRef::TerrainIndices(id),
                upload: BufferUpload {
                    reallocate: true,
                    capacity: tile_index_count(tile_size as int) as usize,
                    start: 0,
                    end: tile_index_count(tile_size as int) as usize,
                },
            }),
            final(self).spec_uploads()[old(self).spec_uploads().len() + 1int] == (PendingUpload {
                target: BufferRef::TerrainTiles(id),
                upload: BufferUpload { reallocate: true, capacity: 8, start: 0, end: 0 },
            }),
            final(self).spec_width() == old(self).spec_width(),
            final(self).spec_height() == old(self).spec_height(),
            final(self).spec_configured() == old(self).spec_configured(),
            final(self).spec_font() == old(self).spec_font(),
            final(self).spec_texts() == old(self).spec_texts(),
    {
        let id = self.terrain_buffers.len();
        let mut buffer = TerrainBuffer::new(tile_size);
        let indices = buffer.flush_indices();
        let tiles = buffer.flush_tiles();
        self.uploads.push(PendingUpload { target: BufferRef::TerrainIndices(id), upload: indices });
        self.uploads.push(PendingUpload { target: BufferRef::TerrainTiles(id), upload: tiles });
        self.terrain_buffers.push(buffer);
        assert(self.terrain_buffers@.subrange(0, id as int) =~= old(self).terrain_buffers@);
        assert(self.uploads@.subrange(0, old(self).uploads@.len() as int) =~= old(self).uploads@);
        id
    }

    /// Replaces the tiles drawn for terrain `id` by `tiles`, one origin each,
    /// in order, and queues the upload of its tile list.
    pub fn update_terrain(&mut self, id: usize, tiles: &Vec<TerrainTile>)
        requires
            old(self).wf(),
            id < old(self).spec_terrains().len(),
        ensures
            final(self).wf(),
            final(self).spec_terrains().len() == old(self).spec_terrains().len(),
            forall|k: int|
                0 <= k < old(self).spec_terrains().len() && k != id ==> #[trigger] final(self).spec_terrains()[k] == old(self).spec_terrains()[k],
            final(self).spec_terrains()[id as int].spec_tiles()@ == tiles@.map_values(
                |t: TerrainTile| tile_origin(t, old(self).spec_terrains()[id as int].spec_tile_size()),
            ),
            final(self).spec_terrains()[id as int].spec_tile_size() == old(self).spec_terrains()[id as int].spec_tile_size(),
            final(self).spec_terrains()[id as int].spec_indices() == old(self).spec_terrains()[id as int].spec_indices(),
            final(self).spec_uploads().len() == old(self).spec_uploads().len() + 1,
            final(self).spec_uploads().drop_last() == old(self).spec_uploads(),
            final(self).spec_uploads().last().target == BufferRef::TerrainTiles(id),
            final(self).spec_uploads().last().upload.start == 0,
            final(self).spec_uploads().last().upload.end == tiles@.len(),
            final(self).spec_terrains()[id as int].spec_tiles().spec_capacity() >= old(self).spec_terrains()[id as int].spec_tiles().spec_capacity(),
            final(self).spec_terrains()[id as int].spec_tiles()@.len() <= final(self).spec_terrains()[id as int].spec_tiles().spec_capacity(),
            final(self).spec_uploads().last().upload.capacity == final(self).spec_terrains()[id as int].spec_tiles().spec_capacity(),
            final(self).spec_uploads().last().upload.reallocate == (old(self).spec_terrains()[id as int].spec_tiles().spec_reallocate() || final(self).spec_terrains()[id as int].spec_tiles().spec_capacity() != old(self).spec_terrains()[id as int].spec_tiles().spec_capacity()),
            !final(self).spec_terrains()[id as int].spec_tiles().spec_reallocate(),
            final(self).spec_width() == old(self).spec_width(),
            final(self).spec_height() == old(self).spec_height(),
            final(self).spec_configured() == old(self).spec_configured(),
            final(self).spec_font() == old(self).spec_font(),
            final(self).spec_texts() == old(self).spec_texts(),
    {
        let mut buffer = self.terrain_buffers.remove(id);
        let upload = buffer.update_tiles(tiles);
        self.terrain_buffers.insert(id, buffer);
        self.uploads.push(PendingUpload { target: BufferRef::TerrainTiles(id), upload });
        assert(self.uploads@.drop_last() =~= old(self).uploads@);
    }

    /// Lays out `text` and registers it, returning its id, the next one in
    /// order; its geometry is queued for creation on the device. Fails,
    /// changing nothing, when the text is longer than [`MAX_TEXT_CHARS`].
    pub fn buffer_text(&mut self, text: &str) -> (r: Result<usize, TextError>)
        requires
            old(self).wf(),
        ensures
            final(self).wf(),
            text@.len() > MAX_TEXT_CHARS ==> r == Err::<usize, TextError>(TextError::TooLong),
            text@.len() <= MAX_TEXT_CHARS ==> r is Ok,
            r is Err ==> *final(self) == *old(self),
            r is Ok ==> {
                let id = r->Ok_0;
                &&& id == old(self).spec_texts().len()
                &&& final(self).spec_texts().len() == old(self).spec_texts().len() + 1
                &&& final(self).spec_texts().subrange(0, id as int) == old(self).spec_texts()
                &&& final(self).spec_texts()[id as int].spec_vertices()@ == layout(
                    old(self).spec_font(),
                    text@,
                ).vertices
                &&& final(self).spec_texts()[id as int].spec_indices()@ == layout(
                    old(self).spec_font(),
                    text@,
                ).indices
                &&& final(self).spec_uploads().len() == old(self).spec_uploads().len() + 2
                &&& final(self).spec_uploads().subrange(0, old(self).spec_uploads().len() as int)
                    == old(self).spec_uploads()
                &&& final(self).spec_uploads()[old(self).spec_uploads().len() as int] == (
                PendingUpload {
                    target: BufferRef::TextVertices(id),
                    upload: BufferUpload {
                        reallocate: true,
                        capacity: layout(old(self).spec_font(), text@).vertices.len() as usize,
                        start: 0,
                        end: layout(old(self).spec_font(), text@).vertices.len() as usize,
                    },
                })
                &&& final(self).spec_uploads()[old(self).spec_uploads().len() + 1int] == (
                PendingUpload {
                    target: BufferRef::TextIndices(id),
                    upload: BufferUpload {
                        reallocate: true,
                        capacity: layout(old(self).spec_font(), text@).indices.len() as usize,
                        start: 0,
                        end: layout(old(self).spec_font(), text@).indices.len() as usize,
                    },
                })
                &&& final(self).spec_terrains() == old(self).spec_terrains()
                &&& final(self).spec_font() == old(self).spec_font()
                &&& final(self).spec_width() == old(self).spec_width()
                &&& final(self).spec_height() == old(self).spec_height()
                &&& final(self).spec_configured() == old(self).spec_configured()
            },
    {
        let mut buffer = self.text_pipeline.buffer_text(&self.font, text)?;
        let id = self.text_buffers.len();
        let (vertices, indices) = buffer.flush();
        self.uploads.push(PendingUpload { target: BufferRef::TextVertices(id), upload: vertices });
        self.uploads.push(PendingUpload { target: BufferRef::TextIndices(id), upload: indices });
        self.text_buffers.push(buffer);
        assert(self.text_buffers@.subrange(0, id as int) =~= old(self).text_buffers@);
        assert(self.uploads@.subrange(0, old(self).uploads@.len() as int) =~= old(self).uploads@);
        Ok(id)
    }

    /// Regenerates the geometry of text `id` for `text` and queues its
    /// upload. Fails, changing nothing, when the text is longer than
    /// [`MAX_TEXT_CHARS`].
    pub fn update_text(&mut self, id: usize, text: &str) -> (r: Result<(), TextError>)
        requires
            old(self).wf(),
            id < old(self).spec_texts().len(),
        ensures
            final(self).wf(),
            text@.len() > MAX_TEXT_CHARS ==> r == Err::<(), TextError>(TextError::TooLong),
            text@.len() <= MAX_TEXT_CHARS ==> r is Ok,
            r is Err ==> *final(self) == *old(self),
            r is Ok ==> {
                &&& final(self).spec_texts().len() == old(self).spec_texts().len()
                &&& forall|k: int|
                    0 <= k < old(self).spec_texts().len() && k != id ==> #[trigger] final(self).spec_texts()[k] == old(self).spec_texts()[k]
                &&& final(self).spec_texts()[id as int].spec_vertices()@ == layout(
                    old(self).spec_font(),
                    text@,
                ).vertices
                &&& final(self).spec_texts()[id as int].spec_indices()@ == layout(
                    old(self).spec_font(),
                    text@,
                ).indices
                &&& final(self).spec_uploads().len() == old(self).spec_uploads().len() + 2
                &&& final(self).spec_uploads().subrange(0, old(self).spec_uploads().len() as int)
                    == old(self).spec_uploads()
                &&& final(self).spec_uploads()[old(self).spec_uploads().len() as int] == (
                PendingUpload {
                    target: BufferRef::TextVertices(id),
                    upload: regenerated_upload(
                        old(self).spec_texts()[id as int].spec_vertices(),
                        final(self).spec_texts()[id as int].spec_vertices(),
                    ),
                })
                &&& final(self).spec_uploads()[old(self).spec_uploads().len() + 1int] == (
                PendingUpload {
                    target: BufferRef::TextIndices(id),
                    upload: regenerated_upload(
                        old(self).spec_texts()[id as int].spec_indices(),
                        final(self).spec_texts()[id as int].spec_indices(),
                    ),
                })
                &&& grown_by_replace(
                    old(self).spec_texts()[id as int].spec_vertices(),
                    final(self).spec_texts()[id as int].spec_vertices(),
                )
                &&& grown_by_replace(
                    old(self).spec_texts()[id as int].spec_indices(),
                    final(self).spec_texts()[id as int].spec_indices(),
                )
                &&& final(self).spec_terrains() == old(self).spec_terrains()
                &&& final(self).spec_font() == old(self).spec_font()
            },
    {
        if text.unicode_len() > MAX_TEXT_CHARS {
            return Err(TextError::TooLong);
        }
        let mut buffer = self.text_buffers.remove(id);
        let result = self.text_pipeline.update_text(&self.font, text, &mut buffer);
        let (vertices, indices) = buffer.flush();
        self.text_buffers.insert(id, buffer);
        self.uploads.push(PendingUpload { target: BufferRef::TextVertices(id), upload: vertices });
        self.uploads.push(PendingUpload { target: BufferRef::TextIndices(id), upload: indices });
        assert(self.uploads@.subrange(0, old(self).uploads@.len() as int) =~= old(self).uploads@);
        result
    }
}

/// The upload queued when a buffer holding `before` is regenerated into
/// `after`: everything, at the new room, reallocating when the room changed
/// or a reallocation was still pending.
pub open spec fn regenerated_upload<T>(before: BackedBuffer<T>, after: BackedBuffer<T>) -> BufferUpload {
    BufferUpload {
        reallocate: before.spec_reallocate() || after.spec_capacity() != before.spec_capacity(),
        capacity: after.spec_capacity(),
        start: 0,
        end: after@.len() as usize,
    }
}

/// Whether `after`'s room is what replacing `before`'s content by `after@`
/// leaves: grown (double or exact) only when the new content does not fit.
pub open spec fn grown_by_replace<T>(before: BackedBuffer<T>, after: BackedBuffer<T>) -> bool {
    &&& after.spec_capacity() as nat == grown_capacity(before.spec_capacity() as nat, after@.len())
    &&& after@.len() <= after.spec_capacity()
}

fn clamp(d: u32) -> (r: u32)
    ensures
        r == clamp_extent(d),
{
    if d == 0 {
        1
    } else {
        d
    }
}

/// A resize never leaves a zero extent: each side becomes at least 1, a
/// zero side becomes 1, a side of 1 stays 1 and any other side is kept. With
/// [`Renderer::resize`] marking the surface configured and
/// [`Renderer::render`] drawing every acquired frame, a frame right after a
/// resize is drawn at a valid extent.
pub proof fn lemma_resize_extent(width: u32, height: u32)
    ensures
        clamp_extent(width) >= 1,
        clamp_extent(height) >= 1,
        clamp_extent(0) == 1,
        clamp_extent(1) == 1,
        width >= 1 ==> clamp_extent(width) == width,
        height >= 1 ==> clamp_extent(height) == height,
{
}

} // verus!
