//! A console-compositing core for glyph-grid (roguelike style) rendering.
//!
//! The crate models logical character consoles (dense grids and sparse cell
//! lists), the vertex batches they produce, the fixed shader registry, the
//! backing-framebuffer resize policy, per-frame input capture and frame
//! planning, and the single-console host-engine bridge.  Platform work
//! (window creation, GPU calls, event pumping) lives outside the library and
//! exchanges plain values with it.

pub mod backing;
pub mod bridge;
pub mod cell;
pub mod color;
pub mod console;
pub mod error;
pub mod font;
pub mod frame;
pub mod init;
pub mod input;
pub mod session;
pub mod shader;
pub mod vertex;
