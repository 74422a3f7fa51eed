//! The passes that draw the viewport: what each asks of the graphics server.

pub mod decal;
pub mod framework;
pub mod fxaa;
pub mod gbuffer;
pub mod ui_renderer;
