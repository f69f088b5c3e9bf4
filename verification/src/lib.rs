//! The core of a small scene editor: a flat list of named, transformable
//! objects, the selection and the drag in progress, the zoom range, and a
//! cache of textures keyed by image path.
//!
//! Drawing, input, file access and every calculation on coordinates belong to
//! the program around this library. It asks the library what to do with the
//! events of a frame and carries that out.

pub mod editor;
pub mod names;
pub mod number;
pub mod object;
pub mod pointer;
pub mod save;
pub mod texture;
