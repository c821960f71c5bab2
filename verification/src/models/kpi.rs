//! Monthly results, their trend, and the scoring configuration.

use crate::decimal::Decimal;
use crate::text::{joined, lowercase_of, same_text, to_lowercase};
use vstd::prelude::*;

verus! {

/// Direction of a score against the developer's recent months.
#[derive(Debug, Clone, Copy, PartialEq, Eq, Structural)]
pub enum KPITrend {
    Improving,
    Stable,
    Declining,
}

impl KPITrend {
    /// The name under which the trend is stored and shown.
    pub open spec fn name(self) -> Seq<char> {
        match self {
            KPITrend::Improving => "improving"@,
            KPITrend::Stable => "stable"@,
            KPITrend::Declining => "declining"@,
        }
    }

    /// The trend that a name stands for, if it is one of the three names.
    pub open spec fn named(name: Seq<char>) -> Option<KPITrend> {
        if name == "improving"@ {
            Some(KPITrend::Improving)
        } else if name == "stable"@ {
            Some(KPITrend::Stable)
        } else if name == "declining"@ {
            Some(KPITrend::Declining)
        } else {
            None
        }
    }

    /// Every trend is found again from its own name.
    pub proof fn lemma_name_round_trip(self)
        ensures
            KPITrend::named(self.name()) == Some(self),
    {
        reveal_strlit("improving");
        reveal_strlit("stable");
        reveal_strlit("declining");
        assert("improving"@.len() == 9 && "stable"@.len() == 6);
        assert("improving"@[0] == 'i' && "declining"@[0] == 'd');
    }

    /// The name as text.
    pub fn as_str(&self) -> (s: &'static str)
        ensures
            s@ == self.name(),
    {
        match self {
            KPITrend::Improving => "improving",
            KPITrend::Stable => "stable",
            KPITrend::Declining => "declining",
        }
    }

    /// Looks a trend up by its exact name.
    pub fn from_name(name: &str) -> (r: Option<KPITrend>)
        ensures
            r == KPITrend::named(name@),
    {
        if same_text(name, "improving") {
            Some(KPITrend::Improving)
        } else if same_text(name, "stable") {
            Some(KPITrend::Stable)
        } else if same_text(name, "declining") {
            Some(KPITrend::Declining)
        } else {
            None
        }
    }

    /// Reads a trend from text, whatever its letter case. Text that names no
    /// trend is handed back in the error message.
    pub fn from_str(s: &str) -> (r: Result<KPITrend, String>)
        ensures
            match r {
                Ok(t) => KPITrend::named(lowercase_of(s@)) == Some(t),
                Err(msg) => KPITrend::named(lowercase_of(s@)) is None && msg@
                    == "Invalid KPI trend: "@ + s@,
            },
    {
        let lower = to_lowercase(s);
        match KPITrend::from_name(lower.as_str()) {
            Some(t) => Ok(t),
            None => Err(joined("Invalid KPI trend: ", s)),
        }
    }
}

/// Points taken off the quality score for each bug that a developer's own
/// mistake caused, by severity.
#[derive(Debug, Clone, Copy, PartialEq, Eq, Structural)]
pub struct BugPenalties {
    pub critical: Decimal,
    pub high: Decimal,
    pub medium: Decimal,
    pub low: Decimal,
}

/// How the two partial scores are weighted and how bugs are penalised.
#[derive(Debug, Clone, Copy, PartialEq, Eq, Structural)]
pub struct KPIConfig {
    pub delivery_weight: Decimal,
    pub quality_weight: Decimal,
    pub bug_penalties: BugPenalties,
}

impl KPIConfig {
    /// The configuration in force when none was saved: equal weights, and
    /// penalties of 15, 10, 5 and 2 points.
    pub open spec fn standard() -> KPIConfig {
        KPIConfig {
            delivery_weight: Decimal { units: 5_000 },
            quality_weight: Decimal { units: 5_000 },
            bug_penalties: BugPenalties {
                critical: Decimal { units: 150_000 },
                high: Decimal { units: 100_000 },
                medium: Decimal { units: 50_000 },
                low: Decimal { units: 20_000 },
            },
        }
    }
}

impl Default for KPIConfig {
    fn default() -> (r: KPIConfig)
        ensures
            r == KPIConfig::standard(),
    {
        KPIConfig {
            delivery_weight: Decimal { units: 5_000 },
            quality_weight: Decimal { units: 5_000 },
            bug_penalties: BugPenalties {
                critical: Decimal { units: 150_000 },
                high: Decimal { units: 100_000 },
                medium: Decimal { units: 50_000 },
                low: Decimal { units: 20_000 },
            },
        }
    }
}

/// One developer's figures for one calendar month.
#[derive(Debug, Clone)]
pub struct MonthlyKPI {
    pub id: String,
    pub developer_id: String,
    pub month: i32,
    pub year: i32,
    pub total_tickets: i32,
    pub completed_tickets: i32,
    pub on_time_tickets: i32,
    pub late_tickets: i32,
    pub reopened_tickets: i32,
    pub on_time_rate: Decimal,
    pub avg_delivery_time: Decimal,
    pub total_bugs: i32,
    pub developer_error_bugs: i32,
    pub conceptual_bugs: i32,
    pub other_bugs: i32,
    pub delivery_score: Decimal,
    pub quality_score: Decimal,
    pub overall_score: Decimal,
    pub trend: Option<KPITrend>,
    pub generated_at: String,
}

} // verus!
