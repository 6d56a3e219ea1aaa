//! A status bar's reactive core: an ordered, persisted task list with its
//! derived display state, the decisions behind the periodic system samplers,
//! and the bar's module configuration.

pub mod config;
pub mod text;
pub mod todo;
pub mod view;
pub mod session;
pub mod system;
