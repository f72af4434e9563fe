use vstd::prelude::*;

pub mod buffer;
pub mod commands;
pub mod game;
pub mod pipeline;
pub mod renderer;
pub mod terrain;
pub mod text;
pub mod world;
