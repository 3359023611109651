//! A multi-buffer text editing engine: cursor-addressed buffers, a line
//! styler, an editor that owns the open buffers, and modal popups.

pub mod editor;
pub mod input;
pub mod paths;
pub mod popup;
pub mod render;
pub mod session;
pub mod storage;
pub mod style;
pub mod text;
