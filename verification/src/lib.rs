//! A small database-access layer: connection registries with explicit
//! lifecycle, and coercion of driver-reported column values into a
//! backend-agnostic structured value.

pub mod common;
pub mod registry;
pub mod sys_db;
pub mod value;
