//! Decisions taken while the store is opened and brought up to date.

pub mod connection;
pub mod migrations;
