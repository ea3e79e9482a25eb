//! A minimal freehand drawing canvas, as verified state.
//!
//! The library holds the whole drawing model: strokes (ordered point
//! sequences with a palette color), the canvas state (completed strokes
//! plus one active stroke), the per-frame transition that grows and seals
//! strokes, and the memory-usage estimate shown in the header bar.
//! Windowing, pointer input and rendering stay outside the library.

pub mod canvas;
pub mod stroke;
