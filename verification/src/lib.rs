//! Input and session logic of a pressure-sensitive stroke drawing lab:
//! tool and pointer state, brush-size gestures, the colour selector's drag
//! state, keyboard shortcuts, renderer selection and the vector surface
//! bookkeeping. Geometry, colour arithmetic and rendering stay with the
//! host application; this crate decides what happens.

pub mod tool;
pub mod sizing;
pub mod pointer;
pub mod selector;
pub mod shortcuts;
pub mod presentation;
pub mod menu;
pub mod surface;
pub mod drawing;
pub mod hud;
