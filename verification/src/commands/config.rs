//! Checking a scoring configuration before it is taken into use.

use crate::decimal::{two_decimals, write_two_decimals, Decimal, SCALE};
use crate::models::kpi::{BugPenalties, KPIConfig};
use vstd::prelude::*;
use vstd::string::*;

verus! {

/// How far the two weights together may be from 1, in units (0.01).
pub const WEIGHT_TOLERANCE: i32 = 100;

/// What is wrong with a configuration, in the words shown to the user; `None`
/// where nothing is. The rules are tried in this order: the weights add up to
/// 1 within the tolerance; each weight lies between 0 and 1; no penalty is
/// negative.
pub open spec fn config_fault(config: KPIConfig) -> Option<Seq<char>> {
    let total = config.delivery_weight.units + config.quality_weight.units;
    if total - SCALE > WEIGHT_TOLERANCE || SCALE - total > WEIGHT_TOLERANCE {
        Some("Weights must sum to 1.0 (current: "@ + two_decimals(total) + ")"@)
    } else if config.delivery_weight.units < 0 || config.delivery_weight.units > SCALE {
        Some("Delivery weight must be between 0 and 1"@)
    } else if config.quality_weight.units < 0 || config.quality_weight.units > SCALE {
        Some("Quality weight must be between 0 and 1"@)
    } else if config.bug_penalties.critical.units < 0 || config.bug_penalties.high.units < 0
        || config.bug_penalties.medium.units < 0 || config.bug_penalties.low.units < 0 {
        Some("Bug penalties must be non-negative"@)
    } else {
        None
    }
}

/// A configuration that may be taken into use.
pub open spec fn config_valid(config: KPIConfig) -> bool {
    &&& -WEIGHT_TOLERANCE <= config.delivery_weight.units + config.quality_weight.units - SCALE
        <= WEIGHT_TOLERANCE
    &&& 0 <= config.delivery_weight.units <= SCALE
    &&& 0 <= config.quality_weight.units <= SCALE
    &&& 0 <= config.bug_penalties.critical.units
    &&& 0 <= config.bug_penalties.high.units
    &&& 0 <= config.bug_penalties.medium.units
    &&& 0 <= config.bug_penalties.low.units
}

/// A configuration has no fault exactly where it is valid.
pub proof fn lemma_fault_free_is_valid(config: KPIConfig)
    ensures
        config_fault(config) is None <==> config_valid(config),
{
}

/// The standard configuration is valid.
pub proof fn lemma_standard_config_valid()
    ensures
        config_valid(KPIConfig::standard()),
{
}

/// Puts a configuration together from its six numbers and checks it. A
/// faulty one is refused with the words that say what is wrong.
pub fn validate_kpi_config(
    delivery_weight: Decimal,
    quality_weight: Decimal,
    bug_penalty_critical: Decimal,
    bug_penalty_high: Decimal,
    bug_penalty_medium: Decimal,
    bug_penalty_low: Decimal,
) -> (r: Result<KPIConfig, String>)
    ensures
        ({
            let config = KPIConfig {
                delivery_weight,
                quality_weight,
                bug_penalties: BugPenalties {
                    critical: bug_penalty_critical,
                    high: bug_penalty_high,
                    medium: bug_penalty_medium,
                    low: bug_penalty_low,
                },
            };
            match r {
                Ok(checked) => checked == config && config_fault(config) is None && config_valid(
                    config,
                ),
                Err(message) => config_fault(config) == Some(message@),
            }
        }),
{
    let total: i64 = delivery_weight.units as i64 + quality_weight.units as i64;
    if total - (SCALE as i64) > WEIGHT_TOLERANCE as i64 || (SCALE as i64) - total
        > WEIGHT_TOLERANCE as i64 {
        let mut message = String::from_str("Weights must sum to 1.0 (current: ");
        message.append(write_two_decimals(total).as_str());
        message.append(")");
        return Err(message);
    }
    if delivery_weight.units < 0 || delivery_weight.units > SCALE {
        return Err(String::from_str("Delivery weight must be between 0 and 1"));
    }
    if quality_weight.units < 0 || quality_weight.units > SCALE {
        return Err(String::from_str("Quality weight must be between 0 and 1"));
    }
    if bug_penalty_critical.units < 0 || bug_penalty_high.units < 0 || bug_penalty_medium.units < 0
        || bug_penalty_low.units < 0 {
        return Err(String::from_str("Bug penalties must be non-negative"));
    }
    Ok(
        KPIConfig {
            delivery_weight,
            quality_weight,
            bug_penalties: BugPenalties {
                critical: bug_penalty_critical,
                high: bug_penalty_high,
                medium: bug_penalty_medium,
                low: bug_penalty_low,
            },
        },
    )
}

} // verus!
