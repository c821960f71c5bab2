//! Scoring rules.

pub mod kpi_calculator;

pub use kpi_calculator::{
    calculate_delivery_score, calculate_overall_score, calculate_quality_score, calculate_trend,
    BugCounts, DeliveryMetrics,
};
