use terrain_render::commands::{BindingRef, BufferRef, PassKind, PipelineKind, RenderCommand};
use terrain_render::renderer::{FrameAction, Renderer, SurfaceError};
use terrain_render::text::{Font, Glyph, GlyphQuad, TextError, MAX_TEXT_CHARS};
use terrain_render::world::TerrainTile;

fn font() -> Font {
    let q = Some(GlyphQuad { left: 0, top: 0, right: 5, bottom: 5, u0: 0, v0: 0, u1: 5, v1: 5 });
    Font {
        glyphs: vec![
            Glyph { ch: 'O', advance: 6, quad: q },
            Glyph { ch: 'K', advance: 6, quad: q },
            Glyph { ch: '!', advance: 2, quad: q },
        ],
        kerning: vec![],
        fallback: '?',
        line_height: 8,
        atlas_width: 16,
        atlas_height: 16,
    }
}

fn renderer() -> Renderer {
    Renderer::new(640, 480, font(), true).unwrap()
}

fn draw_calls(cmds: &[RenderCommand]) -> Vec<RenderCommand> {
    cmds.iter().copied().filter(|c| matches!(c, RenderCommand::DrawIndexed { .. })).collect()
}

#[test]
fn one_tile_terrain_draws_once_with_54_indices() {
    let mut r = renderer();
    let id = r.buffer_terrain(4);
    r.update_terrain(id, &vec![TerrainTile { id: (0, 0) }]);
    match r.render(Ok(()), false) {
        FrameAction::Draw(passes) => {
            assert_eq!(
                draw_calls(&passes[0].commands),
                vec![RenderCommand::DrawIndexed { index_count: 54, instance_count: 1 }]
            );
            assert!(passes[1].commands.is_empty());
        }
        _ => panic!("expected a drawn frame"),
    }
}

#[test]
fn terrain_without_tiles_issues_no_draw() {
    let mut r = renderer();
    r.buffer_terrain(4);
    match r.render(Ok(()), false) {
        FrameAction::Draw(passes) => {
            assert!(passes[0].commands.is_empty());
            assert!(passes[1].commands.is_empty());
        }
        _ => panic!("expected a drawn frame"),
    }
}

#[test]
fn world_pass_precedes_ui_pass() {
    let mut r = renderer();
    let t = r.buffer_terrain(3);
    r.update_terrain(t, &vec![TerrainTile { id: (0, 0) }, TerrainTile { id: (1, 1) }]);
    let s = r.buffer_text("OK").unwrap();
    assert_eq!(s, 0);
    match r.render(Ok(()), true) {
        FrameAction::Draw(passes) => {
            assert_eq!(passes.len(), 2);
            assert_eq!(passes[0].kind, PassKind::World);
            assert!(passes[0].kind.clears_color());
            assert!(passes[0].kind.has_depth());
            assert_eq!(passes[1].kind, PassKind::Ui);
            assert!(!passes[1].kind.clears_color());
            assert!(!passes[1].kind.has_depth());
            assert_eq!(passes[0].commands[0], RenderCommand::SetPipeline(PipelineKind::TerrainDebug));
            assert_eq!(
                draw_calls(&passes[0].commands),
                vec![RenderCommand::DrawIndexed { index_count: 24, instance_count: 2 }]
            );
            assert_eq!(passes[1].commands[0], RenderCommand::SetPipeline(PipelineKind::Text));
            assert_eq!(
                passes[1].commands[2],
                RenderCommand::SetBindGroup { slot: 1, binding: BindingRef::UiCamera }
            );
            assert_eq!(
                draw_calls(&passes[1].commands),
                vec![RenderCommand::DrawIndexed { index_count: 12, instance_count: 1 }]
            );
        }
        _ => panic!("expected a drawn frame"),
    }
}

#[test]
fn outdated_surface_skips_frame() {
    let r = renderer();
    assert!(matches!(r.render(Err(SurfaceError::Outdated), false), FrameAction::Skip));
}

#[test]
fn other_surface_errors_exit() {
    let r = renderer();
    for e in [SurfaceError::Lost, SurfaceError::Timeout, SurfaceError::OutOfMemory, SurfaceError::Other] {
        match r.render(Err(e), false) {
            FrameAction::Exit(got) => assert_eq!(got, e),
            _ => panic!("expected exit"),
        }
    }
}

#[test]
fn resize_clamps_and_configures() {
    let mut r = Renderer::new(0, 0, font(), false).unwrap();
    assert_eq!(r.extent(), (1, 1));
    assert!(!r.is_surface_configured());
    assert_eq!(r.resize(800, 600), (800, 600));
    assert!(r.is_surface_configured());
    assert!(matches!(r.render(Ok(()), false), FrameAction::Draw(_)));
    assert_eq!(r.resize(1, 1), (1, 1));
    assert_eq!(r.resize(0, 7), (1, 7));
    assert_eq!(r.extent(), (1, 7));
    assert!(matches!(r.render(Ok(()), false), FrameAction::Draw(_)));
}

#[test]
fn begin_frame_configures_once() {
    let mut r = Renderer::new(10, 10, font(), false).unwrap();
    assert!(r.begin_frame());
    assert!(!r.begin_frame());
    assert!(r.is_surface_configured());
}

#[test]
fn uploads_are_queued_in_order() {
    let mut r = renderer();
    let id = r.buffer_terrain(4);
    let ups = r.take_uploads();
    assert_eq!(ups.len(), 2);
    assert_eq!(ups[0].target, BufferRef::TerrainIndices(id));
    assert!(ups[0].upload.reallocate);
    assert_eq!(ups[0].upload.end, 54);
    assert_eq!(ups[1].target, BufferRef::TerrainTiles(id));
    assert_eq!(ups[1].upload.capacity, 8);
    assert!(r.take_uploads().is_empty());
    r.update_terrain(id, &vec![TerrainTile { id: (1, 0) }]);
    let ups = r.take_uploads();
    assert_eq!(ups.len(), 1);
    assert_eq!(ups[0].target, BufferRef::TerrainTiles(id));
    assert!(!ups[0].upload.reallocate);
    assert_eq!((ups[0].upload.start, ups[0].upload.end), (0, 1));
    assert_eq!(r.terrain(id).tiles().as_slice()[0].x, 3);
}

#[test]
fn ids_count_up() {
    let mut r = renderer();
    assert_eq!(r.buffer_terrain(2), 0);
    assert_eq!(r.buffer_terrain(2), 1);
    assert_eq!(r.terrain_count(), 2);
    assert_eq!(r.buffer_text("O").unwrap(), 0);
    assert_eq!(r.buffer_text("K").unwrap(), 1);
    assert_eq!(r.text_count(), 2);
}

#[test]
fn update_text_regenerates_geometry() {
    let mut r = renderer();
    let id = r.buffer_text("OK").unwrap();
    assert_eq!(r.text(id).vertices().len(), 8);
    r.take_uploads();
    r.update_text(id, "OK!").unwrap();
    assert_eq!(r.text(id).vertices().len(), 12);
    assert_eq!(r.text(id).indices().len(), 18);
    let ups = r.take_uploads();
    assert_eq!(ups[0].target, BufferRef::TextVertices(id));
    assert!(ups[0].upload.reallocate);
    assert_eq!(ups[1].target, BufferRef::TextIndices(id));
}

#[test]
fn renderer_refuses_too_long_text() {
    let mut r = renderer();
    let long = "K".repeat(MAX_TEXT_CHARS + 1);
    assert_eq!(r.buffer_text(&long), Err(TextError::TooLong));
    assert_eq!(r.text_count(), 0);
    let id = r.buffer_text("O").unwrap();
    assert_eq!(r.update_text(id, &long), Err(TextError::TooLong));
    assert_eq!(r.text(id).vertices().len(), 4);
}

#[test]
fn growing_tile_list_queues_reallocation_at_new_capacity() {
    let mut r = renderer();
    let id = r.buffer_terrain(2);
    r.take_uploads();
    let tiles: Vec<TerrainTile> = (0..9).map(|i| TerrainTile { id: (i, 0) }).collect();
    r.update_terrain(id, &tiles);
    let ups = r.take_uploads();
    assert_eq!(ups.len(), 1);
    assert!(ups[0].upload.reallocate);
    assert_eq!(ups[0].upload.capacity, 16);
    assert_eq!((ups[0].upload.start, ups[0].upload.end), (0, 9));
    assert_eq!(r.terrain(id).tiles().capacity(), 16);
    assert_eq!(r.terrain(id).tiles().as_slice()[8].x, 8);
}

#[test]
fn renderer_pipelines_are_as_built() {
    let r = renderer();
    let t = r.terrain_pipeline();
    assert_eq!(t.triplanar.fragment.as_ref().unwrap().entry_point, "triplanar_shaded");
    assert_eq!(t.debug.fragment.as_ref().unwrap().entry_point, "debug");
    let x = &r.text_pipeline().desc;
    assert_eq!(x.vertex.entry_point, "text_vertex");
    assert_eq!(x.vertex.shader, "shaders/text.wgsl");
    assert_eq!(x.fragment.as_ref().unwrap().entry_point, "text_fragment");
    assert!(x.cull_mode.is_none());
}
