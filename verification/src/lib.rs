//! An interactive character-grid drawing engine: a rectangular canvas of
//! styled character cells edited through a pointer-driven selection state
//! machine, a closed set of drawing tools, and a bounded undo/redo history
//! with a single-slot clipboard.
//!
//! The crate holds the editing core only. Rendering to a real terminal,
//! file dialogs and the widget chrome around the core live outside; they
//! talk to the core through plain values (points, rectangles, cells).

pub mod geometry;

pub mod cell;

pub mod canvas;

pub mod selection;

pub mod wrap;

pub mod drawing_object;

pub mod painter_control;

