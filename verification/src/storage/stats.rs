//! Lifetime statistics and the database summary, built from the row counts
//! the database reports.

use vstd::prelude::*;
use crate::domain::{RepositoryError, RepositoryErrorView};
use crate::storage::lifecycle::LifetimeArchive;

verus! {

/// Whether a stored count is a valid length.
pub open spec fn count_fits(v: i64) -> bool {
    0 <= v <= usize::MAX
}

/// The error of a count that is no valid length.
pub open spec fn count_error(e: RepositoryError) -> bool {
    e@ == RepositoryErrorView::Persistence("out of range integral type conversion attempted"@)
}

/// A count read from the database as a length: negative counts, or counts
/// past the platform's lengths, are refused.
pub fn count_of(v: i64) -> (r: Result<usize, RepositoryError>)
    ensures
        count_fits(v) ==> r == Ok::<usize, RepositoryError>(v as usize),
        !count_fits(v) ==> r is Err && count_error(r->Err_0),
{
    if v < 0 {
        return Err(RepositoryError::persistence("out of range integral type conversion attempted"));
    }
    let u: u64 = v as u64;
    if u > usize::MAX as u64 {
        return Err(RepositoryError::persistence("out of range integral type conversion attempted"));
    }
    Ok(u as usize)
}

/// What the store has ever held: current rows plus the archive of
/// permanently deleted items.
#[derive(Clone, Copy, Debug, PartialEq, Eq, Structural)]
pub struct LifetimeStatistics {
    pub current_vocabulary_count: usize,
    pub current_achieved_count: usize,
    pub active_encounter_count: usize,
    pub review_count: usize,
    pub remembered_count: usize,
    pub forgotten_count: usize,
    pub archived_vocabulary_count: usize,
    pub archived_encounter_count: usize,
    pub archived_review_count: usize,
    pub archived_remembered_count: usize,
    pub archived_forgotten_count: usize,
    pub rating_breakdown_complete: bool,
}

/// Row counts of the live tables.
#[derive(Clone, Copy, Debug, PartialEq, Eq, Structural)]
pub struct CurrentCounts {
    pub vocabulary: i64,
    pub achieved: i64,
    pub active_encounters: i64,
    pub reviews: i64,
    pub remembered: i64,
    pub forgotten: i64,
}

/// The archive as read, an empty one when nothing was ever deleted.
pub open spec fn archive_or_empty(a: Option<LifetimeArchive>) -> LifetimeArchive {
    match a {
        Some(a) => a,
        None => LifetimeArchive {
            vocabulary_count: 0,
            encounter_count: 0,
            review_count: 0,
            remembered_count: 0,
            forgotten_count: 0,
            rating_breakdown_complete: true,
        },
    }
}

pub open spec fn statistics_fit(c: CurrentCounts, a: LifetimeArchive) -> bool {
    &&& count_fits(c.vocabulary)
    &&& count_fits(c.achieved)
    &&& count_fits(c.active_encounters)
    &&& count_fits(c.reviews)
    &&& count_fits(c.remembered)
    &&& count_fits(c.forgotten)
    &&& count_fits(a.vocabulary_count)
    &&& count_fits(a.encounter_count)
    &&& count_fits(a.review_count)
    &&& count_fits(a.remembered_count)
    &&& count_fits(a.forgotten_count)
}

/// The lifetime statistics of the counts.
pub fn lifetime_statistics(current: CurrentCounts, archive: Option<LifetimeArchive>) -> (r: Result<LifetimeStatistics, RepositoryError>)
    ensures
        ({
            let a = archive_or_empty(archive);
            &&& statistics_fit(current, a) ==> r == Ok::<LifetimeStatistics, RepositoryError>(LifetimeStatistics {
                current_vocabulary_count: current.vocabulary as usize,
                current_achieved_count: current.achieved as usize,
                active_encounter_count: current.active_encounters as usize,
                review_count: current.reviews as usize,
                remembered_count: current.remembered as usize,
                forgotten_count: current.forgotten as usize,
                archived_vocabulary_count: a.vocabulary_count as usize,
                archived_encounter_count: a.encounter_count as usize,
                archived_review_count: a.review_count as usize,
                archived_remembered_count: a.remembered_count as usize,
                archived_forgotten_count: a.forgotten_count as usize,
                rating_breakdown_complete: a.rating_breakdown_complete,
            })
            &&& !statistics_fit(current, a) ==> r is Err && count_error(r->Err_0)
        }),
{
    let a = match archive {
        Some(a) => a,
        None => LifetimeArchive {
            vocabulary_count: 0,
            encounter_count: 0,
            review_count: 0,
            remembered_count: 0,
            forgotten_count: 0,
            rating_breakdown_complete: true,
        },
    };
    let current_vocabulary_count = count_of(current.vocabulary)?;
    let current_achieved_count = count_of(current.achieved)?;
    let active_encounter_count = count_of(current.active_encounters)?;
    let review_count = count_of(current.reviews)?;
    let remembered_count = count_of(current.remembered)?;
    let forgotten_count = count_of(current.forgotten)?;
    let archived_vocabulary_count = count_of(a.vocabulary_count)?;
    let archived_encounter_count = count_of(a.encounter_count)?;
    let archived_review_count = count_of(a.review_count)?;
    let archived_remembered_count = count_of(a.remembered_count)?;
    let archived_forgotten_count = count_of(a.forgotten_count)?;
    Ok(LifetimeStatistics {
        current_vocabulary_count,
        current_achieved_count,
        active_encounter_count,
        review_count,
        remembered_count,
        forgotten_count,
        archived_vocabulary_count,
        archived_encounter_count,
        archived_review_count,
        archived_remembered_count,
        archived_forgotten_count,
        rating_breakdown_complete: a.rating_breakdown_complete,
    })
}

/// A read-only snapshot of the database's state.
#[derive(Clone, Copy, Debug, PartialEq, Eq, Structural)]
pub struct DatabaseSummary {
    pub schema_version: u32,
    pub foreign_keys_enabled: bool,
    pub word_count: usize,
    pub active_encounter_count: usize,
    pub review_log_count: usize,
    pub pending_outbox_count: usize,
    pub archived_vocabulary_count: usize,
    pub archived_encounter_count: usize,
    pub archived_review_count: usize,
}

/// Row counts behind a summary.
#[derive(Clone, Copy, Debug, PartialEq, Eq, Structural)]
pub struct SummaryCounts {
    pub words: i64,
    pub active_encounters: i64,
    pub review_logs: i64,
    pub pending_outbox: i64,
}

pub open spec fn summary_fits(c: SummaryCounts, a: LifetimeArchive) -> bool {
    &&& count_fits(c.words)
    &&& count_fits(c.active_encounters)
    &&& count_fits(c.review_logs)
    &&& count_fits(c.pending_outbox)
    &&& count_fits(a.vocabulary_count)
    &&& count_fits(a.encounter_count)
    &&& count_fits(a.review_count)
}

/// The summary of a database with the given version, foreign-key setting and
/// counts.
pub fn database_summary(schema_version: u32, foreign_keys_enabled: bool, counts: SummaryCounts, archive: Option<LifetimeArchive>) -> (r: Result<DatabaseSummary, RepositoryError>)
    ensures
        ({
            let a = archive_or_empty(archive);
            &&& summary_fits(counts, a) ==> r == Ok::<DatabaseSummary, RepositoryError>(DatabaseSummary {
                schema_version,
                foreign_keys_enabled,
                word_count: counts.words as usize,
                active_encounter_count: counts.active_encounters as usize,
                review_log_count: counts.review_logs as usize,
                pending_outbox_count: counts.pending_outbox as usize,
                archived_vocabulary_count: a.vocabulary_count as usize,
                archived_encounter_count: a.encounter_count as usize,
                archived_review_count: a.review_count as usize,
            })
            &&& !summary_fits(counts, a) ==> r is Err && count_error(r->Err_0)
        }),
{
    let (v, e, rv) = match archive {
        Some(a) => (a.vocabulary_count, a.encounter_count, a.review_count),
        None => (0i64, 0i64, 0i64),
    };
    let word_count = count_of(counts.words)?;
    let active_encounter_count = count_of(counts.active_encounters)?;
    let review_log_count = count_of(counts.review_logs)?;
    let pending_outbox_count = count_of(counts.pending_outbox)?;
    let archived_vocabulary_count = count_of(v)?;
    let archived_encounter_count = count_of(e)?;
    let archived_review_count = count_of(rv)?;
    Ok(DatabaseSummary {
        schema_version,
        foreign_keys_enabled,
        word_count,
        active_encounter_count,
        review_log_count,
        pending_outbox_count,
        archived_vocabulary_count,
        archived_encounter_count,
        archived_review_count,
    })
}

} // verus!
