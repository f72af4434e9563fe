use vstd::prelude::*;

verus! {

/// Resource-layout contracts that a pipeline can require, one per bind group.
#[derive(Clone, Copy, Debug, PartialEq, Eq, Structural)]
pub enum BinderLayouts {
    /// A uniform buffer holding a camera's view-projection matrix.
    Camera,
    /// A 2-D texture with its filtering sampler.
    SampledTexture,
    /// A 2-D texture array with its filtering sampler.
    SampledTextureArray,
    /// A uniform buffer of terrain shaping parameters.
    TerrainUniform,
}

/// Shader stages that may read a binding.
#[derive(Clone, Copy, Debug, PartialEq, Eq, Structural)]
pub enum ShaderStages {
    Vertex,
    Fragment,
    VertexFragment,
}

/// Kind of resource a binding slot holds.
#[derive(Clone, Copy, Debug, PartialEq, Eq, Structural)]
pub enum ResourceKind {
    UniformBuffer,
    /// A filterable float 2-D texture.
    Texture2d,
    /// A filterable float 2-D texture array.
    Texture2dArray,
    FilteringSampler,
}

/// One binding slot of a resource layout.
#[derive(Clone, Copy, Debug, PartialEq, Eq, Structural)]
pub struct LayoutEntry {
    pub binding: u32,
    pub visibility: ShaderStages,
    pub resource: ResourceKind,
}

/// The slots that each layout declares: a uniform buffer at slot 0, or a
/// texture at slot 0 with its sampler at slot 1, read by the fragment stage.
pub open spec fn layout_entries(layout: BinderLayouts) -> Seq<LayoutEntry> {
    match layout {
        BinderLayouts::Camera | BinderLayouts::TerrainUniform => seq![
            LayoutEntry {
                binding: 0,
                visibility: ShaderStages::VertexFragment,
                resource: ResourceKind::UniformBuffer,
            },
        ],
        BinderLayouts::SampledTexture => seq![
            LayoutEntry {
                binding: 0,
                visibility: ShaderStages::Fragment,
                resource: ResourceKind::Texture2d,
            },
            LayoutEntry {
                binding: 1,
                visibility: ShaderStages::Fragment,
                resource: ResourceKind::FilteringSampler,
            },
        ],
        BinderLayouts::SampledTextureArray => seq![
            LayoutEntry {
                binding: 0,
                visibility: ShaderStages::Fragment,
                resource: ResourceKind::Texture2dArray,
            },
            LayoutEntry {
                binding: 1,
                visibility: ShaderStages::Fragment,
                resource: ResourceKind::FilteringSampler,
            },
        ],
    }
}

impl BinderLayouts {
    /// The binding slots this layout declares, in slot order.
    pub fn entries(&self) -> (r: Vec<LayoutEntry>)
        ensures
            r@ == layout_entries(*self),
    {
        let mut r: Vec<LayoutEntry> = Vec::new();
        match self {
            BinderLayouts::Camera | BinderLayouts::TerrainUniform => {
                r.push(
                    LayoutEntry {
                        binding: 0,
                        visibility: ShaderStages::VertexFragment,
                        resource: ResourceKind::UniformBuffer,
                    },
                );
            },
            BinderLayouts::SampledTexture | BinderLayouts::SampledTextureArray => {
                let texture = match self {
                    BinderLayouts::SampledTextureArray => ResourceKind::Texture2dArray,
                    _ => ResourceKind::Texture2d,
                };
                r.push(
                    LayoutEntry {
                        binding: 0,
                        visibility: ShaderStages::Fragment,
                        resource: texture,
                    },
                );
                r.push(
                    LayoutEntry {
                        binding: 1,
                        visibility: ShaderStages::Fragment,
                        resource: ResourceKind::FilteringSampler,
                    },
                );
            },
        }
        assert(r@ =~= layout_entries(*self));
        r
    }
}

/// A layout placed at a bind-group index.
#[derive(Clone, Copy, Debug, PartialEq, Eq, Structural)]
pub struct Binder {
    pub group: usize,
    pub layout: BinderLayouts,
}

/// Vertex buffer layouts that a vertex stage can read.
#[derive(Clone, Copy, Debug, PartialEq, Eq, Structural)]
pub enum VertexLayouts {
    /// Per-vertex screen position and atlas coordinate.
    UiVertex,
    /// Per-vertex position, coordinate, normal, tangent and bitangent.
    ModelVertex,
    /// Per-instance tile origin.
    TileInstance,
}

/// Which faces are culled.
#[derive(Clone, Copy, Debug, PartialEq, Eq, Structural)]
pub enum Face {
    Front,
    Back,
}

/// Depth comparison used by a depth test.
#[derive(Clone, Copy, Debug, PartialEq, Eq, Structural)]
pub enum CompareFunction {
    Less,
    LessEqual,
    Always,
}

/// Format of a depth target.
#[derive(Clone, Copy, Debug, PartialEq, Eq, Structural)]
pub enum DepthFormat {
    Depth32Float,
}

/// Depth-test state: target format and comparison.
#[derive(Clone, Copy, Debug, PartialEq, Eq, Structural)]
pub struct DepthState {
    pub format: DepthFormat,
    pub compare: CompareFunction,
}

/// How a color target blends; it always has the presentation surface's format.
#[derive(Clone, Copy, Debug, PartialEq, Eq, Structural)]
pub enum ColorTarget {
    /// Overwrites the target.
    Replace,
    /// Blends by the fragment's alpha.
    AlphaBlend,
}

/// Vertex stage: shader module, entry point and vertex buffer layouts.
pub struct VertexDesc {
    pub shader: String,
    pub entry_point: String,
    pub buffer_layouts: Vec<VertexLayouts>,
}

/// Fragment stage: entry point (in the vertex stage's module) and color targets.
pub struct FragmentDesc {
    pub entry_point: String,
    pub targets: Vec<ColorTarget>,
}

/// A complete, immutable draw-pipeline description.
pub struct PipelineDesc {
    pub label: Option<String>,
    pub binders: Vec<Binder>,
    pub vertex: VertexDesc,
    pub depth: Option<DepthState>,
    pub cull_mode: Option<Face>,
    pub fragment: Option<FragmentDesc>,
}

/// Why a pipeline could not be built.
#[derive(Clone, Copy, Debug, PartialEq, Eq, Structural)]
pub enum PipelineError {
    MissingLayout,
    MissingVertex,
}

/// The bind groups of a pipeline: layout `i` at group `i`.
pub open spec fn binders_for(layouts: Seq<BinderLayouts>) -> Seq<Binder> {
    Seq::new(layouts.len(), |i: int| Binder { group: i as usize, layout: layouts[i] })
}

/// Accumulates the parts of a draw pipeline through chained setters.
pub struct RenderPipelineBuilder {
    pub label: Option<String>,
    pub layout: Option<Vec<BinderLayouts>>,
    pub vertex: Option<VertexDesc>,
    pub depth: Option<DepthState>,
    pub cull_mode: Option<Face>,
    pub fragment: Option<FragmentDesc>,
}

impl RenderPipelineBuilder {
    /// A builder with nothing set.
    pub fn new() -> (r: Self)
        ensures
            r.label is None,
            r.layout is None,
            r.vertex is None,
            r.depth is None,
            r.cull_mode is None,
            r.fragment is None,
    {
        RenderPipelineBuilder {
            label: None,
            layout: None,
            vertex: None,
            depth: None,
            cull_mode: None,
            fragment: None,
        }
    }

    pub fn label(self, label: String) -> (r: Self)
        ensures
            r.label == Some(label),
            r.layout == self.layout,
            r.vertex == self.vertex,
            r.depth == self.depth,
            r.cull_mode == self.cull_mode,
            r.fragment == self.fragment,
    {
        RenderPipelineBuilder { label: Some(label), ..self }
    }

    /// Sets the bind-group layouts, in group order.
    pub fn layout(self, layouts: Vec<BinderLayouts>) -> (r: Self)
        ensures
            r.label == self.label,
            r.layout == Some(layouts),
            r.vertex == self.vertex,
            r.depth == self.depth,
            r.cull_mode == self.cull_mode,
            r.fragment == self.fragment,
    {
        RenderPipelineBuilder { layout: Some(layouts), ..self }
    }

    pub fn vertex(self, vertex: VertexDesc) -> (r: Self)
        ensures
            r.label == self.label,
            r.layout == self.layout,
            r.vertex == Some(vertex),
            r.depth == self.depth,
            r.cull_mode == self.cull_mode,
            r.fragment == self.fragment,
    {
        RenderPipelineBuilder { vertex: Some(vertex), ..self }
    }

    pub fn depth(self, format: DepthFormat, compare: CompareFunction) -> (r: Self)
        ensures
            r.label == self.label,
            r.layout == self.layout,
            r.vertex == self.vertex,
            r.depth == Some(DepthState { format, compare }),
            r.cull_mode == self.cull_mode,
            r.fragment == self.fragment,
    {
        RenderPipelineBuilder { depth: Some(DepthState { format, compare }), ..self }
    }

    pub fn cull_mode(self, cull_mode: Option<Face>) -> (r: Self)
        ensures
            r.label == self.label,
            r.layout == self.layout,
            r.vertex == self.vertex,
            r.depth == self.depth,
            r.cull_mode == cull_mode,
            r.fragment == self.fragment,
    {
        RenderPipelineBuilder { cull_mode, ..self }
    }

    pub fn fragment(self, fragment: FragmentDesc) -> (r: Self)
        ensures
            r.label == self.label,
            r.layout == self.layout,
            r.vertex == self.vertex,
            r.depth == self.depth,
            r.cull_mode == self.cull_mode,
            r.fragment == Some(fragment),
    {
        RenderPipelineBuilder { fragment: Some(fragment), ..self }
    }

    /// The finished pipeline description. Fails when the layout, or else the
    /// vertex stage, was never set; otherwise carries every part as it was set,
    /// with layout `i` at bind group `i`.
    pub fn build(self) -> (r: Result<PipelineDesc, PipelineError>)
        ensures
            self.layout is None ==> r == Err::<PipelineDesc, PipelineError>(PipelineError::MissingLayout),
            self.layout is Some && self.vertex is None ==> r == Err::<PipelineDesc, PipelineError>(
                PipelineError::MissingVertex,
            ),
            self.layout is Some && self.vertex is Some ==> (r matches Ok(d) && {
                &&& d.label == self.label
                &&& d.binders@ == binders_for(self.layout->0@)
                &&& d.vertex == self.vertex->0
                &&& d.depth == self.depth
                &&& d.cull_mode == self.cull_mode
                &&& d.fragment == self.fragment
            }),
    {
        let RenderPipelineBuilder { label, layout, vertex, depth, cull_mode, fragment } = self;
        let layouts = match layout {
            Some(l) => l,
            None => {
                return Err(PipelineError::MissingLayout);
            },
        };
        let vertex = match vertex {
            Some(v) => v,
            None => {
                return Err(PipelineError::MissingVertex);
            },
        };
        let mut binders: Vec<Binder> = Vec::new();
        let mut i: usize = 0;
        while i < layouts.len()
            invariant
                i <= layouts@.len(),
                binders@ == binders_for(layouts@.subrange(0, i as int)),
            decreases layouts@.len() - i,
        {
            binders.push(Binder { group: i, layout: layouts[i] });
            i = i + 1;
            assert(binders@ =~= binders_for(layouts@.subrange(0, i as int)));
        }
        assert(layouts@.subrange(0, layouts@.len() as int) =~= layouts@);
        Ok(PipelineDesc { label, binders, vertex, depth, cull_mode, fragment })
    }
}

} // verus!
