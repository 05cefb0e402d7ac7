//! The storage schema's migration plan.
pub mod migrations;
