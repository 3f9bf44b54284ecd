//! `bevy_undo_redo` is an implementation of an undo/redo system for the Bevy game engine.
//!
//! * [`history`] holds [`History`], a list of committed items and a list of undone items with an
//!   optional limit, and the cursors that walk them.
//! * [`operation`] holds [`Operation`], the trait of everything that can be applied and undone,
//!   and [`operation::DynOperation`], by which operations of many kinds are held as one kind.
//! * [`common_operations`] holds operations that are of use to any app, such as a group of
//!   operations that acts as one.
//! * [`undoredo`] holds [`UndoRedo`], which queues operations, applies them and keeps them in a
//!   history, to undo and redo them.
//!
//! Each type has a mathematical model, its view, and each function states over these models what
//! it returns and what it changes.

pub mod common_operations;
pub(crate) mod error;
pub mod history;
pub mod operation;
pub mod undoredo;

pub use crate::{error::Error, history::History, operation::Operation, undoredo::UndoRedo};
