//! Animation and editor-interaction core for a layered 2D puppet editor.
//!
//! The library holds the time-based pieces (a countdown [`timer::Timer`] and a
//! scalar tween in [`animation`]), the puppet data model ([`puppet::Puppet`]
//! and its components and states), and the pointer-driven selection and drag
//! logic of the editor ([`editor::Editor`]), together with the state machines
//! of the basic widgets in [`gui`]. Presentation — windowing, fonts,
//! per-frame drawing — stays outside; the editor exposes read-only accessors
//! for a renderer to query.
//!
//! Time is measured in whole milliseconds and tween progress in parts per
//! million of the way from the initial to the target value, so that every
//! statement about the engine is exact integer arithmetic.

pub mod animation;
pub mod editor;
pub mod geometry;
pub mod gui;
mod ids;
pub mod puppet;
pub mod timer;
pub mod typedefs;
