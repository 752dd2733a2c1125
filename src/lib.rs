use vstd::prelude::*;

pub mod cursor;
pub mod editor;
pub mod render;
pub mod terminal;

pub use cursor::{Key, Position};
pub use editor::Editor;
pub use terminal::{Size, Terminal};
