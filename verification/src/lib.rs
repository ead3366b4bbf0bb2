//! A read-only browser core for relational databases: schema introspection,
//! type-driven decoding of raw cells, and the two-panel selection state machine.

pub mod app_state;
pub mod database;
pub mod text;
pub mod ui;
