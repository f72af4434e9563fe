use vstd::prelude::*;

verus! {

/// Side length, in grid points, of one terrain tile when nothing else is configured.
pub fn default_tile_size() -> (r: u32)
    ensures
        r == 256,
{
    256
}

/// Number of tiles along each side of the terrain when nothing else is configured.
pub fn default_terrain_size() -> (r: u32)
    ensures
        r == 16,
{
    16
}

/// Extent, in tiles, of the window of tiles drawn when nothing else is configured.
pub fn default_chunk_radius() -> (r: u32)
    ensures
        r == 4,
{
    4
}

/// The keys that the game reacts to; every other key is `Other`.
#[derive(Clone, Copy, Debug, PartialEq, Eq, Structural)]
pub enum Key {
    Escape,
    KeyF,
    Digit0,
    Other,
}

/// What a key event asks of the game.
#[derive(Clone, Copy, Debug, PartialEq, Eq, Structural)]
pub enum KeyAction {
    /// Save the settings and leave.
    Exit,
    ToggleFullscreen,
    ToggleDebugMode,
    Nothing,
}

/// The action of a key event that the camera did not take: Escape leaves
/// (pressed or released), F toggles fullscreen and 0 toggles debug mode when
/// pressed.
pub fn key_action(key: Key, is_pressed: bool) -> (r: KeyAction)
    ensures
        key == Key::Escape ==> r == KeyAction::Exit,
        key == Key::KeyF ==> r == if is_pressed {
            KeyAction::ToggleFullscreen
        } else {
            KeyAction::Nothing
        },
        key == Key::Digit0 ==> r == if is_pressed {
            KeyAction::ToggleDebugMode
        } else {
            KeyAction::Nothing
        },
        key == Key::Other ==> r == KeyAction::Nothing,
{
    match (key, is_pressed) {
        (Key::Escape, _) => KeyAction::Exit,
        (Key::KeyF, true) => KeyAction::ToggleFullscreen,
        (Key::Digit0, true) => KeyAction::ToggleDebugMode,
        _ => KeyAction::Nothing,
    }
}

/// Word shown for the debug-mode state in the overlay.
pub fn debug_mode_label(active: bool) -> (r: &'static str)
    ensures
        active ==> r@ == "ON"@,
        !active ==> r@ == "OFF"@,
{
    if active {
        "ON"
    } else {
        "OFF"
    }
}

/// Number of frames over which the tick rate is averaged.
pub const TICK_WINDOW: u32 = 100;

/// Counts frames to average the tick rate over windows of [`TICK_WINDOW`] frames.
pub struct FrameCounter {
    frames: u32,
}

impl FrameCounter {
    pub closed spec fn spec_frames(&self) -> u32 {
        self.frames
    }

    pub fn new() -> (r: Self)
        ensures
            r.spec_frames() == 0,
    {
        FrameCounter { frames: 0 }
    }

    /// Counts one frame. Returns true when a window is complete: the caller
    /// then takes the time since the window began, divided by [`TICK_WINDOW`],
    /// as the tick rate, and the count starts again from zero.
    pub fn tick(&mut self) -> (r: bool)
        requires
            old(self).spec_frames() < TICK_WINDOW,
        ensures
            r == (old(self).spec_frames() + 1 == TICK_WINDOW),
            final(self).spec_frames() == if r {
                0
            } else {
                old(self).spec_frames() + 1
            },
            final(self).spec_frames() < TICK_WINDOW,
    {
        self.frames = self.frames + 1;
        if self.frames >= TICK_WINDOW {
            self.frames = 0;
            true
        } else {
            false
        }
    }
}

} // verus!
