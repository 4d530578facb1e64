//! Schema upgrades: which steps an existing database still needs, decided
//! from its recorded version and the columns it already has.

use vstd::prelude::*;
use crate::domain::{RepositoryError, RepositoryErrorView};

verus! {

/// The schema version a fully upgraded database records.
pub const CURRENT_SCHEMA_VERSION: u32 = 9;

/// Which of the columns added by later upgrades a database already has.
#[derive(Clone, Copy, Debug, PartialEq, Eq, Structural)]
pub struct SchemaColumns {
    /// `encounters.capture_origin`
    pub capture_origin: bool,
    /// `review_logs.result_payload`
    pub review_result: bool,
    /// `words.mastered_at` (with `achieved_at` and `delete_after`)
    pub lifecycle: bool,
    /// `lifetime_archive.remembered_count` (with the rating breakdown)
    pub rating_breakdown: bool,
    /// `encounters.saved_local_date`
    pub saved_local_date: bool,
    /// `encounters.saved_translation_json` (with the translation history)
    pub saved_translation: bool,
    /// whether the identity reconciliation has run
    pub identity_reconciled: bool,
}

/// The upgrade steps a database needs.
#[derive(Clone, Copy, Debug, PartialEq, Eq, Structural)]
pub struct SchemaUpgrade {
    pub add_capture_origin: bool,
    pub add_review_result: bool,
    /// adds the lifecycle columns and stamps legacy Mastered items with the
    /// upgrade time, without making them Achieved
    pub add_lifecycle: bool,
    pub add_rating_breakdown: bool,
    pub add_saved_local_date: bool,
    /// adds the saved-translation column and seeds the history from the
    /// items' non-blank translations
    pub add_translation_history: bool,
    pub reconcile_identities: bool,
}

/// Whether a database at `version` can be opened: it was not written by a
/// newer version of the library.
pub open spec fn opens(version: int) -> bool {
    version <= CURRENT_SCHEMA_VERSION
}

/// Each step runs exactly when its column is missing.
pub open spec fn planned(columns: SchemaColumns) -> SchemaUpgrade {
    SchemaUpgrade {
        add_capture_origin: !columns.capture_origin,
        add_review_result: !columns.review_result,
        add_lifecycle: !columns.lifecycle,
        add_rating_breakdown: !columns.rating_breakdown,
        add_saved_local_date: !columns.saved_local_date,
        add_translation_history: !columns.saved_translation,
        reconcile_identities: !columns.identity_reconciled,
    }
}

/// A database written by a newer version is never touched; a database at
/// the current version or older is opened, each step running exactly when
/// its column is missing.
pub fn upgrade_plan(version: u32, columns: SchemaColumns) -> (r: Result<SchemaUpgrade, RepositoryError>)
    ensures
        !opens(version as int) ==> r is Err && r->Err_0@ == RepositoryErrorView::Persistence(
            "Database was created by a newer app version"@),
        opens(version as int) ==> r == Ok::<SchemaUpgrade, RepositoryError>(planned(columns)),
{
    if version > CURRENT_SCHEMA_VERSION {
        return Err(RepositoryError::persistence("Database was created by a newer app version"));
    }
    Ok(SchemaUpgrade {
        add_capture_origin: !columns.capture_origin,
        add_review_result: !columns.review_result,
        add_lifecycle: !columns.lifecycle,
        add_rating_breakdown: !columns.rating_breakdown,
        add_saved_local_date: !columns.saved_local_date,
        add_translation_history: !columns.saved_translation,
        reconcile_identities: !columns.identity_reconciled,
    })
}

/// The columns of a fully upgraded database.
pub open spec fn all_columns() -> SchemaColumns {
    SchemaColumns {
        capture_origin: true,
        review_result: true,
        lifecycle: true,
        rating_breakdown: true,
        saved_local_date: true,
        saved_translation: true,
        identity_reconciled: true,
    }
}

/// Whether a plan has nothing to do.
pub open spec fn no_steps(u: SchemaUpgrade) -> bool {
    !u.add_capture_origin && !u.add_review_result && !u.add_lifecycle && !u.add_rating_breakdown
        && !u.add_saved_local_date && !u.add_translation_history && !u.reconcile_identities
}

/// The columns after a plan ran.
pub open spec fn after_upgrade(c: SchemaColumns, u: SchemaUpgrade) -> SchemaColumns {
    SchemaColumns {
        capture_origin: c.capture_origin || u.add_capture_origin,
        review_result: c.review_result || u.add_review_result,
        lifecycle: c.lifecycle || u.add_lifecycle,
        rating_breakdown: c.rating_breakdown || u.add_rating_breakdown,
        saved_local_date: c.saved_local_date || u.add_saved_local_date,
        saved_translation: c.saved_translation || u.add_translation_history,
        identity_reconciled: c.identity_reconciled || u.reconcile_identities,
    }
}

/// A database the library wrote can always be opened again. Upgrading is
/// idempotent: a plan brings every database it accepts to the
/// full set of columns, and a database that has them all needs no step.
pub proof fn upgrade_reaches_current_schema(columns: SchemaColumns)
    ensures
        opens(CURRENT_SCHEMA_VERSION as int),
        after_upgrade(columns, planned(columns)) == all_columns(),
        columns == all_columns() ==> no_steps(planned(columns)),
{
}

} // verus!
