use terrain_render::game::{
    FrameCounter, Key, KeyAction, TICK_WINDOW, debug_mode_label, default_chunk_radius,
    default_terrain_size, default_tile_size, key_action,
};
use terrain_render::world::{TerrainTile, generate_tiles, tiles_in_window};

#[test]
fn defaults() {
    assert_eq!(default_tile_size(), 256);
    assert_eq!(default_terrain_size(), 16);
    assert_eq!(default_chunk_radius(), 4);
}

#[test]
fn tiles_are_laid_out_row_by_row() {
    let t = generate_tiles(3);
    assert_eq!(t.len(), 9);
    assert_eq!(t[0].id, (0, 0));
    assert_eq!(t[1].id, (1, 0));
    assert_eq!(t[3].id, (0, 1));
    assert_eq!(t[8].id, (2, 2));
    assert!(generate_tiles(0).is_empty());
}

#[test]
fn window_keeps_tiles_inside_in_order() {
    let tiles = vec![
        TerrainTile { id: (1, 0) },
        TerrainTile { id: (2, 0) },
        TerrainTile { id: (0, 1) },
        TerrainTile { id: (1, 5) },
        TerrainTile { id: (0, 0) },
    ];
    let w = tiles_in_window(&tiles, 2);
    assert_eq!(w, vec![TerrainTile { id: (1, 0) }, TerrainTile { id: (0, 1) }, TerrainTile { id: (0, 0) }]);
    assert!(tiles_in_window(&tiles, 0).is_empty());
}

#[test]
fn keys_map_to_actions() {
    assert_eq!(key_action(Key::Escape, true), KeyAction::Exit);
    assert_eq!(key_action(Key::Escape, false), KeyAction::Exit);
    assert_eq!(key_action(Key::KeyF, true), KeyAction::ToggleFullscreen);
    assert_eq!(key_action(Key::KeyF, false), KeyAction::Nothing);
    assert_eq!(key_action(Key::Digit0, true), KeyAction::ToggleDebugMode);
    assert_eq!(key_action(Key::Digit0, false), KeyAction::Nothing);
    assert_eq!(key_action(Key::Other, true), KeyAction::Nothing);
}

#[test]
fn debug_labels() {
    assert_eq!(debug_mode_label(true), "ON");
    assert_eq!(debug_mode_label(false), "OFF");
}

#[test]
fn frame_counter_completes_a_window_every_hundred_frames() {
    let mut c = FrameCounter::new();
    for _ in 0..TICK_WINDOW - 1 {
        assert!(!c.tick());
    }
    assert!(c.tick());
    assert!(!c.tick());
}
