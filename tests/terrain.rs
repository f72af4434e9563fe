use terrain_render::commands::{BindingRef, BufferRef, PassKind, PipelineKind, RenderCommand, RenderPass};
use terrain_render::pipeline::{
    Binder, BinderLayouts, ColorTarget, CompareFunction, DepthFormat, DepthState, Face, VertexLayouts,
};
use terrain_render::terrain::{TerrainBuffer, TerrainPipeline, TileInstance, tile_indices};
use terrain_render::world::TerrainTile;

#[test]
fn indices_of_two_point_tile() {
    assert_eq!(tile_indices(2), vec![0, 3, 1, 0, 2, 3]);
}

#[test]
fn indices_of_three_point_tile() {
    let ix = tile_indices(3);
    assert_eq!(
        ix,
        vec![0, 4, 1, 0, 3, 4, 1, 5, 2, 1, 4, 5, 3, 7, 4, 3, 6, 7, 4, 8, 5, 4, 7, 8]
    );
}

#[test]
fn index_count_and_bound_for_several_sizes() {
    for n in [1u32, 2, 4, 5, 17, 64] {
        let ix = tile_indices(n);
        assert_eq!(ix.len() as u32, 6 * (n - 1) * (n - 1));
        assert!(ix.iter().all(|&i| i < n * n));
    }
}

#[test]
fn triangles_share_winding() {
    let n = 5u32;
    let ix = tile_indices(n);
    for t in ix.chunks(3) {
        let p = |i: u32| ((i % n) as i64, (i / n) as i64);
        let (a, b, c) = (p(t[0]), p(t[1]), p(t[2]));
        let cross = (b.0 - a.0) * (c.1 - a.1) - (b.1 - a.1) * (c.0 - a.0);
        assert!(cross < 0);
    }
}

#[test]
fn tiles_become_origins() {
    let mut b = TerrainBuffer::new(4);
    let tiles = vec![TerrainTile { id: (0, 0) }, TerrainTile { id: (2, 1) }];
    let u = b.update_tiles(&tiles);
    assert_eq!(b.tiles().as_slice(), &[TileInstance { x: 0, z: 0 }, TileInstance { x: 6, z: 3 }]);
    assert_eq!(u.start, 0);
    assert_eq!(u.end, 2);
    assert!(u.reallocate);
    assert_eq!(b.index_count(), 54);
    assert_eq!(b.tile_size(), 4);
}

#[test]
fn updating_tiles_grows_the_tile_list() {
    let mut b = TerrainBuffer::new(2);
    b.flush_tiles();
    let tiles: Vec<TerrainTile> = (0..9).map(|i| TerrainTile { id: (i, 0) }).collect();
    let u = b.update_tiles(&tiles);
    assert_eq!(b.tiles().capacity(), 16);
    assert!(u.reallocate);
    assert_eq!(b.tiles().len(), 9);
    let u = b.update_tiles(&tiles[..3].to_vec());
    assert!(!u.reallocate);
    assert_eq!(b.tiles().len(), 3);
}

#[test]
fn draw_with_no_tiles_records_nothing() {
    let p = TerrainPipeline::new().unwrap();
    let b = TerrainBuffer::new(4);
    let mut pass = RenderPass::new(PassKind::World);
    p.draw(&mut pass, BindingRef::WorldCamera, BindingRef::TerrainTextures, 0, &b);
    p.debug(&mut pass, BindingRef::WorldCamera, 0, &b);
    assert!(pass.commands.is_empty());
}

#[test]
fn draw_records_one_instanced_call() {
    let p = TerrainPipeline::new().unwrap();
    let mut b = TerrainBuffer::new(4);
    b.update_tiles(&vec![TerrainTile { id: (0, 0) }, TerrainTile { id: (1, 0) }]);
    let mut pass = RenderPass::new(PassKind::World);
    p.draw(&mut pass, BindingRef::WorldCamera, BindingRef::TerrainTextures, 3, &b);
    assert_eq!(
        pass.commands,
        vec![
            RenderCommand::SetPipeline(PipelineKind::TerrainShaded),
            RenderCommand::SetBindGroup { slot: 0, binding: BindingRef::TerrainUniform(3) },
            RenderCommand::SetBindGroup { slot: 1, binding: BindingRef::WorldCamera },
            RenderCommand::SetBindGroup { slot: 2, binding: BindingRef::TerrainTextures },
            RenderCommand::SetIndexBuffer(BufferRef::TerrainIndices(3)),
            RenderCommand::SetVertexBuffer { slot: 0, buffer: BufferRef::TerrainTiles(3) },
            RenderCommand::DrawIndexed { index_count: 54, instance_count: 2 },
        ]
    );
}

#[test]
fn debug_draw_skips_textures() {
    let p = TerrainPipeline::new().unwrap();
    let mut b = TerrainBuffer::new(3);
    b.update_tiles(&vec![TerrainTile { id: (0, 0) }]);
    let mut pass = RenderPass::new(PassKind::World);
    p.debug(&mut pass, BindingRef::WorldCamera, 0, &b);
    assert_eq!(
        pass.commands,
        vec![
            RenderCommand::SetPipeline(PipelineKind::TerrainDebug),
            RenderCommand::SetBindGroup { slot: 0, binding: BindingRef::TerrainUniform(0) },
            RenderCommand::SetBindGroup { slot: 1, binding: BindingRef::WorldCamera },
            RenderCommand::SetIndexBuffer(BufferRef::TerrainIndices(0)),
            RenderCommand::SetVertexBuffer { slot: 0, buffer: BufferRef::TerrainTiles(0) },
            RenderCommand::DrawIndexed { index_count: 24, instance_count: 1 },
        ]
    );
}

#[test]
fn terrain_pipelines_layouts() {
    let p = TerrainPipeline::new().unwrap();
    assert_eq!(
        p.triplanar.binders,
        vec![
            Binder { group: 0, layout: BinderLayouts::TerrainUniform },
            Binder { group: 1, layout: BinderLayouts::Camera },
            Binder { group: 2, layout: BinderLayouts::SampledTextureArray },
        ]
    );
    assert_eq!(p.debug.binders.len(), 2);
    assert_eq!(p.triplanar.cull_mode, Some(Face::Back));
    assert_eq!(p.triplanar.vertex.entry_point, "displace_terrain");
    assert_eq!(p.triplanar.fragment.as_ref().unwrap().entry_point, "triplanar_shaded");
    assert_eq!(p.debug.fragment.as_ref().unwrap().entry_point, "debug");
}

#[test]
fn terrain_pipelines_share_depth_and_targets() {
    let p = TerrainPipeline::new().unwrap();
    for d in [&p.triplanar, &p.debug] {
        assert_eq!(
            d.depth,
            Some(DepthState { format: DepthFormat::Depth32Float, compare: CompareFunction::Less })
        );
        assert_eq!(d.vertex.shader, "shaders/terrain.wgsl");
        assert_eq!(d.vertex.buffer_layouts, vec![VertexLayouts::TileInstance]);
        assert_eq!(d.fragment.as_ref().unwrap().targets, vec![ColorTarget::Replace]);
        assert!(d.label.is_none());
    }
}
