use vstd::prelude::*;

verus! {

/// The draw pipelines that commands can select.
#[derive(Clone, Copy, Debug, PartialEq, Eq, Structural)]
pub enum PipelineKind {
    TerrainShaded,
    TerrainDebug,
    Text,
}

/// The resource bindings that commands can attach.
#[derive(Clone, Copy, Debug, PartialEq, Eq, Structural)]
pub enum BindingRef {
    /// The shaping-parameter uniform of a registered terrain.
    TerrainUniform(usize),
    /// The 3-D world camera uniform.
    WorldCamera,
    /// The 2-D overlay camera uniform.
    UiCamera,
    /// The terrain texture array with its sampler.
    TerrainTextures,
    /// The glyph atlas texture with its sampler.
    FontAtlas,
}

/// The geometry buffers that commands can attach.
#[derive(Clone, Copy, Debug, PartialEq, Eq, Structural)]
pub enum BufferRef {
    TerrainIndices(usize),
    TerrainTiles(usize),
    TextVertices(usize),
    TextIndices(usize),
}

/// One recorded step of a render pass.
#[derive(Clone, Copy, Debug, PartialEq, Eq, Structural)]
pub enum RenderCommand {
    SetPipeline(PipelineKind),
    SetBindGroup { slot: u32, binding: BindingRef },
    SetIndexBuffer(BufferRef),
    SetVertexBuffer { slot: u32, buffer: BufferRef },
    /// Draws indices `0..index_count` for instances `0..instance_count`.
    DrawIndexed { index_count: usize, instance_count: usize },
}

/// The two passes of a frame, in the order they run.
#[derive(Clone, Copy, Debug, PartialEq, Eq, Structural)]
pub enum PassKind {
    /// Depth-tested 3-D pass: clears color and depth.
    World,
    /// Overlay pass: keeps the color drawn so far and has no depth target.
    Ui,
}

impl PassKind {
    pub open spec fn spec_clears_color(self) -> bool {
        self is World
    }

    pub open spec fn spec_has_depth(self) -> bool {
        self is World
    }

    /// Whether the pass starts by clearing its color target (else it loads it).
    pub fn clears_color(&self) -> (r: bool)
        ensures
            r == self.spec_clears_color(),
    {
        match self {
            PassKind::World => true,
            PassKind::Ui => false,
        }
    }

    /// Whether the pass has a depth target (cleared at its start).
    pub fn has_depth(&self) -> (r: bool)
        ensures
            r == self.spec_has_depth(),
    {
        match self {
            PassKind::World => true,
            PassKind::Ui => false,
        }
    }
}

/// The commands recorded for one pass, in order.
pub struct RenderPass {
    pub kind: PassKind,
    pub commands: Vec<RenderCommand>,
}

impl RenderPass {
    pub fn new(kind: PassKind) -> (r: Self)
        ensures
            r.kind == kind,
            r.commands@ == Seq::<RenderCommand>::empty(),
    {
        RenderPass { kind, commands: Vec::new() }
    }

    /// Appends `cmds` to the pass, in order.
    pub fn record(&mut self, cmds: Vec<RenderCommand>)
        ensures
            final(self).kind == old(self).kind,
            final(self).commands@ == old(self).commands@ + cmds@,
    {
        let mut cmds = cmds;
        self.commands.append(&mut cmds);
    }
}

/// Number of draw calls in a command sequence.
pub open spec fn draw_call_count(cmds: Seq<RenderCommand>) -> nat
    decreases cmds.len(),
{
    if cmds.len() == 0 {
        0
    } else {
        draw_call_count(cmds.drop_last()) + if cmds.last() is DrawIndexed {
            1nat
        } else {
            0nat
        }
    }
}

} // verus!
