//! A text-mode console for an 80 x 25 grid of hardware character cells: packed colour
//! attributes, volatile cell access, and a writer that wraps lines and scrolls.

pub mod color;
pub mod buffer;
pub mod screen;
pub mod writer;
pub mod console;
