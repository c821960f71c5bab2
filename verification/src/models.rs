//! The records the scoring works on.

pub mod bug;
pub mod developer;
pub mod kpi;
pub mod ticket;

pub use bug::{Bug, BugSeverity, BugType, CreateBugInput, UpdateBugInput};
pub use developer::{CreateDeveloperInput, Developer, DeveloperRole, UpdateDeveloperInput};
pub use kpi::{BugPenalties, KPIConfig, KPITrend, MonthlyKPI};
pub use ticket::{CreateTicketInput, Ticket, TicketComplexity, TicketStatus, UpdateTicketInput};
