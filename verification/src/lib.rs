//! Lifecycle of one auxiliary "popup" window that hangs below an application's
//! main window: where it goes, when it is built, focused or closed, and which
//! failures reach the caller.
//!
//! The window host itself stays outside. The decisions are functions of what
//! the host reported; `registry` holds an in-memory host on which the two
//! commands run from end to end.

pub mod commands;
pub mod controller;
pub mod geometry;
pub mod registry;
pub mod style;
