//! A terminal to-do list: the task model, the rules of the list and its
//! sub-lists, the key bindings, and the text layout of the screen.

pub mod app;
pub mod keys;
pub mod laws;
pub mod model;
pub mod render;
pub mod text;
