//! The decision logic of the disktree browser: the application state and how
//! actions, keys and finished background work change it, the ordering of the
//! folder listing, and the small computations behind the widgets.

pub mod actions;
pub mod input;
pub mod listing;
pub mod model;
pub mod state;
pub mod tasks;
pub mod text;
pub mod widgets;
