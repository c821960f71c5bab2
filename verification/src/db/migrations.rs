//! Which steps of bringing the store up to date are due.

use crate::text::same_text;
use vstd::prelude::*;

verus! {

/// What is to be done about one migration.
#[derive(Debug, Clone, Copy, PartialEq, Eq, Structural)]
pub struct MigrationPlan {
    /// Run the statements of the migration.
    pub run: bool,
    /// Note the migration as applied.
    pub record: bool,
}

/// The migration that adds the resolver columns to the bugs. It is checked
/// against the table itself, not only against the notes of what was applied.
pub open spec fn is_resolver_migration(name: Seq<char>) -> bool {
    name == "002_bug_resolver"@
}

/// What is due for a migration. The resolver migration is run wherever its
/// columns are missing, and noted where it is not noted yet. Any other
/// migration is run and noted where it is not noted yet.
pub open spec fn planned(name: Seq<char>, applied: bool, columns_exist: bool) -> MigrationPlan {
    if is_resolver_migration(name) {
        MigrationPlan { run: !columns_exist, record: !applied }
    } else {
        MigrationPlan { run: !applied, record: !applied }
    }
}

/// Decides what is to be done about a migration, given whether it is noted
/// as applied and whether the resolver columns exist.
pub fn plan_migration(name: &str, applied: bool, columns_exist: bool) -> (plan: MigrationPlan)
    ensures
        plan == planned(name@, applied, columns_exist),
{
    if same_text(name, "002_bug_resolver") {
        MigrationPlan { run: !columns_exist, record: !applied }
    } else {
        MigrationPlan { run: !applied, record: !applied }
    }
}

/// The migrations in the order in which they are applied.
pub fn migration_names() -> (names: Vec<&'static str>)
    ensures
        names@.len() == 5,
        names@[0]@ == "001_initial_schema"@,
        names@[1]@ == "002_bug_resolver"@,
        names@[2]@ == "003_add_indexes"@,
        names@[3]@ == "004_datetime_fields"@,
        names@[4]@ == "005_app_version"@,
{
    let mut names: Vec<&'static str> = Vec::new();
    names.push("001_initial_schema");
    names.push("002_bug_resolver");
    names.push("003_add_indexes");
    names.push("004_datetime_fields");
    names.push("005_app_version");
    names
}

} // verus!
