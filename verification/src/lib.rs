//! Monthly performance scoring for software teams: ticket and bug records are
//! aggregated per developer and month, turned into delivery, quality and
//! overall scores, and compared with the developer's recent history.
//!
//! Every quantity with a fractional part is a [`decimal::Decimal`], a
//! fixed-point number with four fractional digits, so that all scoring is
//! exact integer arithmetic with one documented rounding rule.

pub mod commands;
pub mod db;
pub mod decimal;
pub mod models;
pub mod services;
pub mod system;
pub mod text;
