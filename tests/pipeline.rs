use terrain_render::pipeline::{
    Binder, BinderLayouts, ColorTarget, CompareFunction, DepthFormat, DepthState, Face,
    FragmentDesc, LayoutEntry, PipelineError, RenderPipelineBuilder, ResourceKind, ShaderStages,
    VertexDesc, VertexLayouts,
};

fn vertex() -> VertexDesc {
    VertexDesc {
        shader: "shaders/x.wgsl".to_string(),
        entry_point: "vs".to_string(),
        buffer_layouts: vec![VertexLayouts::ModelVertex],
    }
}

#[test]
fn build_without_layout_fails() {
    let r = RenderPipelineBuilder::new().vertex(vertex()).build();
    assert_eq!(r.err(), Some(PipelineError::MissingLayout));
}

#[test]
fn build_without_vertex_fails() {
    let r = RenderPipelineBuilder::new().layout(vec![BinderLayouts::Camera]).build();
    assert_eq!(r.err(), Some(PipelineError::MissingVertex));
}

#[test]
fn build_empty_builder_reports_layout_first() {
    assert_eq!(RenderPipelineBuilder::new().build().err(), Some(PipelineError::MissingLayout));
}

#[test]
fn build_carries_every_part() {
    let d = RenderPipelineBuilder::new()
        .label("p".to_string())
        .layout(vec![BinderLayouts::Camera, BinderLayouts::SampledTexture])
        .vertex(vertex())
        .depth(DepthFormat::Depth32Float, CompareFunction::LessEqual)
        .cull_mode(Some(Face::Front))
        .fragment(FragmentDesc { entry_point: "fs".to_string(), targets: vec![ColorTarget::Replace] })
        .build()
        .unwrap();
    assert_eq!(d.label.as_deref(), Some("p"));
    assert_eq!(
        d.binders,
        vec![
            Binder { group: 0, layout: BinderLayouts::Camera },
            Binder { group: 1, layout: BinderLayouts::SampledTexture },
        ]
    );
    assert_eq!(d.vertex.entry_point, "vs");
    assert_eq!(d.vertex.buffer_layouts, vec![VertexLayouts::ModelVertex]);
    assert_eq!(
        d.depth,
        Some(DepthState { format: DepthFormat::Depth32Float, compare: CompareFunction::LessEqual })
    );
    assert_eq!(d.cull_mode, Some(Face::Front));
    assert_eq!(d.fragment.unwrap().entry_point, "fs");
}

#[test]
fn optional_parts_stay_unset() {
    let d = RenderPipelineBuilder::new().layout(vec![]).vertex(vertex()).build().unwrap();
    assert!(d.binders.is_empty());
    assert!(d.depth.is_none());
    assert!(d.cull_mode.is_none());
    assert!(d.fragment.is_none());
    assert!(d.label.is_none());
}

#[test]
fn layout_entries_per_kind() {
    let uniform = vec![LayoutEntry {
        binding: 0,
        visibility: ShaderStages::VertexFragment,
        resource: ResourceKind::UniformBuffer,
    }];
    assert_eq!(BinderLayouts::Camera.entries(), uniform);
    assert_eq!(BinderLayouts::TerrainUniform.entries(), uniform);
    let tex = BinderLayouts::SampledTexture.entries();
    assert_eq!(tex.len(), 2);
    assert_eq!(tex[0].resource, ResourceKind::Texture2d);
    assert_eq!(tex[1].binding, 1);
    assert_eq!(tex[1].resource, ResourceKind::FilteringSampler);
    let arr = BinderLayouts::SampledTextureArray.entries();
    assert_eq!(arr[0].resource, ResourceKind::Texture2dArray);
    assert_eq!(arr[0].visibility, ShaderStages::Fragment);
}
