//! The decisions of a scene editor and of the passes that draw its viewport,
//! kept apart from the host that shows widgets and talks to the GPU.

pub mod animation;
pub mod bit;
pub mod bit_ints;
pub mod collections;
pub mod command;
pub mod handle;
pub mod light;
pub mod message;
pub mod renderer;
pub mod scene;
pub mod settings;
pub mod tilemap;
pub mod tree;
pub mod ui;
pub mod widget;
