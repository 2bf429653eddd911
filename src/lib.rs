//! A small windowing and rendering scaffold: packed colours, drawable
//! components that record fill commands, and the lifecycle controller that
//! decides what a window does on each event.

pub mod color;
pub mod error;
pub mod canvas;
pub mod component;
pub mod rect;
pub mod renderer;
pub mod window;
