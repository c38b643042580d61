//! A pluggable 2D rendering core and multi-layer animated background engine:
//! a CPU compositing path (canvas, blend modes, sprite batches) and the
//! declarative parallax background compositor that drives it.

pub mod background;
pub mod batch;
pub mod blend;
pub mod bmp;
pub mod canvas;
pub mod config_text;
pub mod gpu;
pub mod rect;
pub mod renderer;
pub mod rng;
