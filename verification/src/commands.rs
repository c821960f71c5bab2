//! What the application does on request: reports, configuration, updates.

pub mod bugs;
pub mod config;
pub mod developers;
pub mod export;
pub mod history;
pub mod metrics;
pub mod reports;
pub mod tickets;
pub mod updater;

pub use config::validate_kpi_config;
pub use export::export_monthly_kpi_csv;
pub use history::get_previous_scores;
pub use updater::{
    find_platform_asset, is_version_newer, select_update, GitHubAsset, GitHubRelease, Platform,
    UpdateInfo,
};
pub use metrics::{aggregate_bug_metrics, aggregate_ticket_metrics};
pub use reports::{compute_monthly_kpi, generate_monthly_kpi, get_current_month_kpi};
