//! Geometry and interaction model of an interactive cubic curve editor:
//! four draggable control points, the curve they define, and the drag
//! state machine that moves them.

pub mod geometry;
pub mod curve;
pub mod editor;
