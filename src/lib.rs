//! Incremental cell-grid rendering core for terminal user interfaces drawn
//! into a web page: change tracking, background-span merging, cursor and
//! hyperlink overlays, and pointer-to-grid coordinate mapping.
pub mod bits;
pub mod cell;
pub mod grid;
pub mod merger;
pub mod cursor;
pub mod canvas;
pub mod gpu;
pub mod event;
pub mod pointer;
pub mod dom;
pub mod style;

pub use canvas::CanvasBackend;
pub use cursor::CursorShape;
pub use dom::{DomBackend, DomBackendOptions};
pub use gpu::WebGl2Backend;
