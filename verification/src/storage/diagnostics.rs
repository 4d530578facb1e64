//! The read-only database check: its report, the stages it passes through,
//! the issues it records (codes only, never values) and its final status.

use vstd::prelude::*;
use crate::text::text_eq;

verus! {

/// The only schema version the check understands.
pub const CHECKED_SCHEMA_VERSION: u32 = 9;

/// The report of a database check.
#[derive(Debug)]
pub struct CheckReport {
    pub checked_at: String,
    pub status: String,
    pub stage: String,
    pub sqlite_version: String,
    pub schema_version: Option<u32>,
    pub issues: Vec<String>,
    pub coverage: Vec<String>,
    pub elapsed_ms: u64,
    /// Row counts by name, in ascending order of the names.
    pub counts: Vec<(String, i64)>,
    pub database_bytes: Option<u64>,
}

/// The texts of a list of strings.
pub open spec fn texts(v: Seq<String>) -> Seq<Seq<char>> {
    v.map_values(|s: String| s@)
}

/// The issue list after `code` was recorded: a code is listed once.
pub open spec fn with_issue(issues: Seq<Seq<char>>, code: Seq<char>) -> Seq<Seq<char>> {
    if issues.contains(code) { issues } else { issues.push(code) }
}

/// A problem the check can report. Only these codes ever appear in a report,
/// never a value read from the database.
#[derive(Clone, Copy, Debug, PartialEq, Eq, Structural)]
pub enum CheckIssue {
    UnsupportedSchemaVersion,
    SqliteStructureError,
    ForeignKeyViolation,
    InvalidVocabularyFormat,
    InvalidTimestamp,
    InvalidTranslationSnapshot,
    InvalidSettings,
    InvalidReviewRating,
}

pub open spec fn issue_code(i: CheckIssue) -> Seq<char> {
    match i {
        CheckIssue::UnsupportedSchemaVersion => "unsupported_schema_version"@,
        CheckIssue::SqliteStructureError => "sqlite_structure_error"@,
        CheckIssue::ForeignKeyViolation => "foreign_key_violation"@,
        CheckIssue::InvalidVocabularyFormat => "invalid_vocabulary_format"@,
        CheckIssue::InvalidTimestamp => "invalid_timestamp"@,
        CheckIssue::InvalidTranslationSnapshot => "invalid_translation_snapshot"@,
        CheckIssue::InvalidSettings => "invalid_settings"@,
        CheckIssue::InvalidReviewRating => "invalid_review_rating"@,
    }
}

impl CheckIssue {
    pub fn code(self) -> (c: &'static str)
        ensures
            c@ == issue_code(self),
    {
        match self {
            CheckIssue::UnsupportedSchemaVersion => "unsupported_schema_version",
            CheckIssue::SqliteStructureError => "sqlite_structure_error",
            CheckIssue::ForeignKeyViolation => "foreign_key_violation",
            CheckIssue::InvalidVocabularyFormat => "invalid_vocabulary_format",
            CheckIssue::InvalidTimestamp => "invalid_timestamp",
            CheckIssue::InvalidTranslationSnapshot => "invalid_translation_snapshot",
            CheckIssue::InvalidSettings => "invalid_settings",
            CheckIssue::InvalidReviewRating => "invalid_review_rating",
        }
    }
}

/// A stored review rating is one of the two JSON strings a review records.
pub fn valid_review_rating(text: &str) -> (r: bool)
    ensures
        r == (text@ == "\"remembered\""@ || text@ == "\"forgot\""@),
{
    crate::text::text_eq(text, "\"remembered\"") || crate::text::text_eq(text, "\"forgot\"")
}

/// The codes a report may hold: the issue codes and the reasons a check
/// stops early.
pub open spec fn report_code(c: Seq<char>) -> bool {
    (exists|i: CheckIssue| issue_code(i) == c) || c == "check_time_limit"@ || c == "database_busy"@
        || c == "database_unavailable"@ || c == "database_unreadable"@ || c == "check_could_not_complete"@
}

pub open spec fn only_report_codes(issues: Seq<Seq<char>>) -> bool {
    forall|k: int| 0 <= k < issues.len() ==> report_code(#[trigger] issues[k])
}

/// The result code of a SQLite failure, as far as the check tells them apart.
#[derive(Clone, Copy, Debug, PartialEq, Eq, Structural)]
pub enum SqliteErrorCode {
    DatabaseBusy,
    DatabaseLocked,
    CannotOpen,
    DatabaseCorrupt,
    NotADatabase,
    Other,
}

/// The issue code of a check that could not finish: the time limit, else
/// the kind of SQLite failure (`None` for a failure that was not SQLite's).
pub open spec fn failure_code_of(timed_out: bool, failure: Option<SqliteErrorCode>) -> Seq<char> {
    if timed_out {
        "check_time_limit"@
    } else {
        match failure {
            Some(SqliteErrorCode::DatabaseBusy) => "database_busy"@,
            Some(SqliteErrorCode::DatabaseLocked) => "database_busy"@,
            Some(SqliteErrorCode::CannotOpen) => "database_unavailable"@,
            Some(SqliteErrorCode::DatabaseCorrupt) => "database_unreadable"@,
            Some(SqliteErrorCode::NotADatabase) => "database_unreadable"@,
            _ => "check_could_not_complete"@,
        }
    }
}

pub fn failure_code(timed_out: bool, failure: Option<SqliteErrorCode>) -> (c: &'static str)
    ensures
        c@ == failure_code_of(timed_out, failure),
{
    if timed_out {
        "check_time_limit"
    } else {
        match failure {
            Some(SqliteErrorCode::DatabaseBusy) => "database_busy",
            Some(SqliteErrorCode::DatabaseLocked) => "database_busy",
            Some(SqliteErrorCode::CannotOpen) => "database_unavailable",
            Some(SqliteErrorCode::DatabaseCorrupt) => "database_unreadable",
            Some(SqliteErrorCode::NotADatabase) => "database_unreadable",
            _ => "check_could_not_complete",
        }
    }
}

/// The name of the `k`-th stage a check covers.
pub open spec fn step_name(k: int) -> Seq<char> {
    if k == 0 {
        "structure"@
    } else if k == 1 {
        "quick_check"@
    } else if k == 2 {
        "foreign_keys"@
    } else {
        "application_formats"@
    }
}

/// The stage a check is in after `k` stages were covered.
pub open spec fn stage_after(k: int) -> Seq<char> {
    if k == 0 {
        "structure"@
    } else if k == 1 {
        "sqlite"@
    } else if k == 2 {
        "relationships"@
    } else {
        "formats"@
    }
}

/// The coverage after one more stage was covered (four at most).
pub open spec fn advanced(c: Seq<Seq<char>>) -> Seq<Seq<char>> {
    if c.len() < 4 { c.push(step_name(c.len() as int)) } else { c }
}

/// The coverage of a check that went through every stage.
pub open spec fn full_coverage() -> Seq<Seq<char>> {
    seq!["structure"@, "quick_check"@, "foreign_keys"@, "application_formats"@]
}

/// A check that starts with no coverage covers every stage, in order, after
/// four steps.
pub proof fn stages_are_covered_in_order()
    ensures
        advanced(advanced(advanced(advanced(Seq::empty())))) == full_coverage(),
{
    assert(advanced(advanced(advanced(advanced(Seq::empty())))) =~= full_coverage());
}

/// The final status: a cancelled check says so; a check that stopped early is
/// incomplete; otherwise it passed or found issues.
pub open spec fn status_of(cancelled: bool, stopped: bool, issues: Seq<Seq<char>>) -> Seq<char> {
    if cancelled {
        "cancelled"@
    } else if stopped {
        "incomplete"@
    } else if issues.len() == 0 {
        "passed"@
    } else {
        "issues"@
    }
}

/// The issues after the check ended: a check that stopped early without a
/// recorded issue records why it stopped.
pub open spec fn final_issues(cancelled: bool, stopped: bool, timed_out: bool, failure: Option<SqliteErrorCode>, issues: Seq<Seq<char>>) -> Seq<Seq<char>> {
    if !cancelled && stopped && issues.len() == 0 {
        seq![failure_code_of(timed_out, failure)]
    } else {
        issues
    }
}

impl CheckReport {
    /// A report at the start of a check.
    pub fn new(checked_at: String, sqlite_version: String, database_bytes: Option<u64>) -> (r: CheckReport)
        ensures
            r.checked_at == checked_at,
            r.status@ == "incomplete"@,
            r.stage@ == "structure"@,
            r.sqlite_version == sqlite_version,
            r.schema_version is None,
            r.issues@.len() == 0,
            r.coverage@.len() == 0,
            r.elapsed_ms == 0,
            r.counts@.len() == 0,
            r.database_bytes == database_bytes,
    {
        CheckReport {
            checked_at,
            status: String::from_str("incomplete"),
            stage: String::from_str("structure"),
            sqlite_version,
            schema_version: None,
            issues: Vec::new(),
            coverage: Vec::new(),
            elapsed_ms: 0,
            counts: Vec::new(),
            database_bytes,
        }
    }

    /// Records an issue once.
    pub fn record_issue(&mut self, issue: CheckIssue)
        ensures
            texts(final(self).issues@) == with_issue(texts(old(self).issues@), issue_code(issue)),
            final(self).status == old(self).status,
            final(self).stage == old(self).stage,
            final(self).coverage == old(self).coverage,
            final(self).schema_version == old(self).schema_version,
            final(self).counts == old(self).counts,
    {
        self.record_code(issue.code());
    }

    fn record_code(&mut self, code: &str)
        ensures
            texts(final(self).issues@) == with_issue(texts(old(self).issues@), code@),
            final(self).status == old(self).status,
            final(self).stage == old(self).stage,
            final(self).coverage == old(self).coverage,
            final(self).schema_version == old(self).schema_version,
            final(self).counts == old(self).counts,
    {
        let mut i: usize = 0;
        while i < self.issues.len()
            invariant
                i <= self.issues@.len(),
                forall|j: int| 0 <= j < i ==> self.issues@[j]@ != code@,
            decreases self.issues.len() - i,
        {
            if text_eq(self.issues[i].as_str(), code) {
                proof {
                    assert(texts(self.issues@)[i as int] == code@);
                    assert(texts(self.issues@).contains(code@));
                }
                return;
            }
            i = i + 1;
        }
        proof {
            assert(!texts(self.issues@).contains(code@)) by {
                if texts(self.issues@).contains(code@) {
                    let j = choose|j: int| 0 <= j < texts(self.issues@).len() && texts(self.issues@)[j] == code@;
                    assert(self.issues@[j]@ == code@);
                }
            }
        }
        self.issues.push(String::from_str(code));
        proof {
            assert(texts(self.issues@) =~= texts(old(self).issues@).push(code@));
        }
    }

    /// Records the schema version; says whether the check can go on.
    pub fn check_schema_version(&mut self, version: u32) -> (supported: bool)
        ensures
            supported == (version == CHECKED_SCHEMA_VERSION),
            final(self).schema_version == Some(version),
            texts(final(self).issues@) == if supported { texts(old(self).issues@) } else {
                with_issue(texts(old(self).issues@), "unsupported_schema_version"@) },
            final(self).status == old(self).status,
            final(self).stage == old(self).stage,
            final(self).coverage == old(self).coverage,
    {
        self.schema_version = Some(version);
        if version != CHECKED_SCHEMA_VERSION {
            self.record_issue(CheckIssue::UnsupportedSchemaVersion);
            return false;
        }
        true
    }

    /// Marks the current stage as covered and moves on to the next one:
    /// structure, SQLite's own check, relationships, then the application
    /// formats.
    pub fn advance(&mut self)
        ensures
            texts(final(self).coverage@) == advanced(texts(old(self).coverage@)),
            final(self).stage@ == if texts(old(self).coverage@).len() < 4 {
                stage_after(texts(old(self).coverage@).len() + 1int)
            } else {
                old(self).stage@
            },
            final(self).issues == old(self).issues,
            final(self).status == old(self).status,
            final(self).schema_version == old(self).schema_version,
    {
        let k = self.coverage.len();
        if k < 4 {
            let (covered, next) = if k == 0 {
                ("structure", "sqlite")
            } else if k == 1 {
                ("quick_check", "relationships")
            } else if k == 2 {
                ("foreign_keys", "formats")
            } else {
                ("application_formats", "formats")
            };
            self.coverage.push(String::from_str(covered));
            self.stage = String::from_str(next);
            proof {
                reveal_strlit("structure");
                reveal_strlit("quick_check");
                reveal_strlit("foreign_keys");
                reveal_strlit("application_formats");
                assert(texts(self.coverage@) =~= texts(old(self).coverage@).push(covered@));
            }
        }
    }

    /// Whether every stage was covered, in order.
    pub fn coverage_complete(&self) -> (r: bool)
        ensures
            r == (texts(self.coverage@) == full_coverage()),
    {
        proof {
            reveal_strlit("structure");
            reveal_strlit("quick_check");
            reveal_strlit("foreign_keys");
            reveal_strlit("application_formats");
        }
        if self.coverage.len() != 4 {
            proof {
                assert(texts(self.coverage@).len() == self.coverage@.len());
                assert(full_coverage().len() == 4);
            }
            return false;
        }
        let r = text_eq(self.coverage[0].as_str(), "structure") && text_eq(self.coverage[1].as_str(), "quick_check")
            && text_eq(self.coverage[2].as_str(), "foreign_keys") && text_eq(self.coverage[3].as_str(), "application_formats");
        proof {
            let t = texts(self.coverage@);
            if r {
                assert(t =~= full_coverage());
            } else if t == full_coverage() {
                assert(t[0] == self.coverage@[0]@ && t[1] == self.coverage@[1]@);
                assert(t[2] == self.coverage@[2]@ && t[3] == self.coverage@[3]@);
            }
        }
        r
    }

    /// Records the row counts, in ascending order of their names.
    pub fn record_counts(&mut self, vocabulary: i64, encounters: i64, reviews: i64, pending_changes: i64)
        ensures
            final(self).counts@.len() == 4,
            final(self).counts@[0].0@ == "encounters"@ && final(self).counts@[0].1 == encounters,
            final(self).counts@[1].0@ == "pending_changes"@ && final(self).counts@[1].1 == pending_changes,
            final(self).counts@[2].0@ == "reviews"@ && final(self).counts@[2].1 == reviews,
            final(self).counts@[3].0@ == "vocabulary"@ && final(self).counts@[3].1 == vocabulary,
            final(self).issues == old(self).issues,
            final(self).status == old(self).status,
            final(self).stage == old(self).stage,
            final(self).coverage == old(self).coverage,
    {
        let mut counts: Vec<(String, i64)> = Vec::new();
        counts.push((String::from_str("encounters"), encounters));
        counts.push((String::from_str("pending_changes"), pending_changes));
        counts.push((String::from_str("reviews"), reviews));
        counts.push((String::from_str("vocabulary"), vocabulary));
        self.counts = counts;
    }

    /// Ends the check: `stopped` says whether it stopped early, `failure`
    /// what stopped it, `timed_out` whether it ran past its time limit, and
    /// `elapsed_millis` how long it took.
    pub fn finish(&mut self, cancelled: bool, stopped: bool, timed_out: bool, failure: Option<SqliteErrorCode>, elapsed_millis: u128)
        ensures
            ({
                let ended = stopped || texts(old(self).coverage@) != full_coverage();
                &&& final(self).status@ == status_of(cancelled, ended, texts(old(self).issues@))
                &&& texts(final(self).issues@) == final_issues(cancelled, ended, timed_out, failure, texts(old(self).issues@))
            }),
            final(self).elapsed_ms as int == if elapsed_millis > u64::MAX { u64::MAX as int } else { elapsed_millis as int },
            final(self).stage == old(self).stage,
            final(self).coverage == old(self).coverage,
            final(self).schema_version == old(self).schema_version,
            final(self).counts == old(self).counts,
    {
        let no_issues = self.issues.len() == 0;
        let stopped = stopped || !self.coverage_complete();
        let status = if cancelled {
            "cancelled"
        } else if stopped {
            if no_issues {
                self.issues.push(String::from_str(failure_code(timed_out, failure)));
                proof {
                    assert(texts(self.issues@) =~= seq![failure_code_of(timed_out, failure)]);
                }
            }
            "incomplete"
        } else if no_issues {
            "passed"
        } else {
            "issues"
        };
        self.status = String::from_str(status);
        self.elapsed_ms = if elapsed_millis > u64::MAX as u128 { u64::MAX } else { elapsed_millis as u64 };
    }
}

/// A report holds nothing but the fixed codes: recording an issue or ending
/// the check only ever adds one of them.
pub proof fn reports_hold_only_codes(issues: Seq<Seq<char>>, issue: CheckIssue, cancelled: bool, stopped: bool, timed_out: bool, failure: Option<SqliteErrorCode>)
    requires
        only_report_codes(issues),
    ensures
        only_report_codes(with_issue(issues, issue_code(issue))),
        only_report_codes(final_issues(cancelled, stopped, timed_out, failure, issues)),
{
    if !issues.contains(issue_code(issue)) {
        let pushed = issues.push(issue_code(issue));
        assert forall|k: int| 0 <= k < pushed.len() implies report_code(#[trigger] pushed[k]) by {
            if k < issues.len() {
                assert(pushed[k] == issues[k]);
            } else {
                assert(issue_code(issue) == pushed[k]);
            }
        }
    }
    if !cancelled && stopped && issues.len() == 0 {
        let s = seq![failure_code_of(timed_out, failure)];
        assert(report_code(s[0]));
    }
}

/// A report that passed or found issues went through every stage: its
/// coverage is the full list, in order.
pub proof fn finished_reports_cover_every_stage(cancelled: bool, stopped: bool, coverage: Seq<Seq<char>>, issues: Seq<Seq<char>>)
    ensures
        ({
            let status = status_of(cancelled, stopped || coverage != full_coverage(), issues);
            (status == "passed"@ || status == "issues"@) ==> coverage == full_coverage() && !stopped && !cancelled
        }),
{
    reveal_strlit("passed");
    reveal_strlit("issues");
    reveal_strlit("cancelled");
    reveal_strlit("incomplete");
    assert("passed"@.len() == 6 && "issues"@.len() == 6);
    assert("incomplete"@.len() == 10 && "cancelled"@.len() == 9);
}

/// No code is ever listed twice in a report.
pub proof fn issues_stay_distinct(issues: Seq<Seq<char>>, code: Seq<char>)
    requires
        issues.no_duplicates(),
    ensures
        with_issue(issues, code).no_duplicates(),
        with_issue(issues, code).contains(code),
{
    if !issues.contains(code) {
        let pushed = issues.push(code);
        assert(pushed[issues.len() as int] == code);
        assert forall|i: int, j: int| 0 <= i < pushed.len() && 0 <= j < pushed.len() && i != j implies pushed[i] != pushed[j] by {
            if i < issues.len() && j < issues.len() {
            } else if i < issues.len() {
                assert(pushed[i] == issues[i]);
            } else {
                assert(pushed[j] == issues[j]);
            }
        }
    }
}

} // verus!
