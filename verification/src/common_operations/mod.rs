//! A collection of common [`Operation`]s that may be useful in any Bevy app.
//!
//! [`Operation`]: crate::operation::Operation
mod operation_group;

pub use self::operation_group::{lemma_group_order, lemma_mirrored_order, OperationGroup};
