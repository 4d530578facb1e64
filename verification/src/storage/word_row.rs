//! Reading a Vocabulary Item back from its stored row: identifiers are UUID
//! texts, timestamps RFC 3339 texts, and the owner scope and learning status
//! JSON strings.

use vstd::prelude::*;
use crate::domain::{OwnerScope, RepositoryError, RepositoryErrorView, ReviewState, Word, WordStatus};

verus! {

/// The instant, in microseconds after the Unix epoch, that chrono's
/// `DateTime::parse_from_rfc3339` reads in `text`; `None` where it refuses
/// the text.
pub uninterp spec fn rfc3339_instant(text: Seq<char>) -> Option<i64>;

/// The 128-bit value of the UUID that `uuid::Uuid::parse_str` reads in
/// `text`; `None` where it refuses the text.
pub uninterp spec fn uuid_value(text: Seq<char>) -> Option<u128>;

/// Calls `chrono::DateTime::parse_from_rfc3339` and takes the instant's
/// `timestamp_micros`; the result is named [`rfc3339_instant`].
#[verifier::external_body]
fn parse_rfc3339(text: &str) -> (r: Option<i64>)
    ensures
        r == rfc3339_instant(text@),
{
    chrono::DateTime::parse_from_rfc3339(text).ok().map(|t| t.timestamp_micros())
}

/// Calls `uuid::Uuid::parse_str` and takes the identifier's `as_u128`; the
/// result is named [`uuid_value`].
#[verifier::external_body]
fn parse_uuid(text: &str) -> (r: Option<u128>)
    ensures
        r == uuid_value(text@),
{
    uuid::Uuid::parse_str(text).ok().map(|u| u.as_u128())
}

/// A stored timestamp.
pub fn parse_time(text: &str) -> (r: Result<i64, RepositoryError>)
    ensures
        match rfc3339_instant(text@) {
            Some(v) => r == Ok::<i64, RepositoryError>(v),
            None => r is Err && r->Err_0@ == RepositoryErrorView::Persistence("invalid timestamp"@),
        },
{
    match parse_rfc3339(text) {
        Some(v) => Ok(v),
        None => Err(RepositoryError::persistence("invalid timestamp")),
    }
}

/// A stored identifier.
pub fn parse_id(text: &str) -> (r: Result<u128, RepositoryError>)
    ensures
        match uuid_value(text@) {
            Some(v) => r == Ok::<u128, RepositoryError>(v),
            None => r is Err && r->Err_0@ == RepositoryErrorView::Persistence("invalid identifier"@),
        },
{
    match parse_uuid(text) {
        Some(v) => Ok(v),
        None => Err(RepositoryError::persistence("invalid identifier")),
    }
}

/// A Vocabulary Item's row as stored: every column as text, with the review
/// schedule given by the due time its JSON holds (`None` for `null`).
pub struct WordRow {
    pub id: String,
    pub owner_scope: String,
    pub lemma: String,
    pub display_form: String,
    pub source_language: String,
    pub target_language: String,
    pub translation: Option<String>,
    pub part_of_speech: Option<String>,
    pub status: String,
    pub created_at: String,
    pub updated_at: String,
    pub deleted_at: Option<String>,
    pub mastered_at: Option<String>,
    pub achieved_at: Option<String>,
    pub delete_after: Option<String>,
    pub review_due_at: Option<String>,
}

/// The owner scope a JSON string names.
pub open spec fn owner_scope_named(t: Seq<char>) -> Option<OwnerScope> {
    if t == "\"guest\""@ {
        Some(OwnerScope::Guest)
    } else if t == "\"account\""@ {
        Some(OwnerScope::Account)
    } else {
        None
    }
}

/// The learning status a JSON string names.
pub open spec fn status_named(t: Seq<char>) -> Option<WordStatus> {
    if t == "\"learning\""@ {
        Some(WordStatus::Learning)
    } else if t == "\"paused\""@ {
        Some(WordStatus::Paused)
    } else if t == "\"mastered\""@ {
        Some(WordStatus::Mastered)
    } else {
        None
    }
}

/// An optional timestamp column: absent stays absent, present must parse.
pub open spec fn optional_instant(t: Option<String>) -> Option<Option<i64>> {
    match t {
        None => Some(None),
        Some(s) => match rfc3339_instant(s@) {
            Some(v) => Some(Some(v)),
            None => None,
        },
    }
}

/// Every column of the row reads.
pub open spec fn row_reads(row: WordRow) -> bool {
    &&& uuid_value(row.id@) is Some
    &&& owner_scope_named(row.owner_scope@) is Some
    &&& status_named(row.status@) is Some
    &&& rfc3339_instant(row.created_at@) is Some
    &&& rfc3339_instant(row.updated_at@) is Some
    &&& optional_instant(row.deleted_at) is Some
    &&& optional_instant(row.mastered_at) is Some
    &&& optional_instant(row.achieved_at) is Some
    &&& optional_instant(row.delete_after) is Some
    &&& optional_instant(row.review_due_at) is Some
}

/// The item a readable row holds; the texts are taken as they are.
pub open spec fn row_word(row: WordRow) -> Word {
    Word {
        id: uuid_value(row.id@)->0,
        owner_scope: owner_scope_named(row.owner_scope@)->0,
        lemma: row.lemma,
        display_form: row.display_form,
        source_language: row.source_language,
        target_language: row.target_language,
        translation: row.translation,
        part_of_speech: row.part_of_speech,
        status: status_named(row.status@)->0,
        created_at: rfc3339_instant(row.created_at@)->0,
        updated_at: rfc3339_instant(row.updated_at@)->0,
        deleted_at: optional_instant(row.deleted_at)->0,
        mastered_at: optional_instant(row.mastered_at)->0,
        achieved_at: optional_instant(row.achieved_at)->0,
        delete_after: optional_instant(row.delete_after)->0,
        review_state: match optional_instant(row.review_due_at)->0 {
            Some(d) => Some(ReviewState { due_at: d }),
            None => None,
        },
    }
}

fn parse_optional_time(t: &Option<String>) -> (r: Result<Option<i64>, RepositoryError>)
    ensures
        match optional_instant(*t) {
            Some(v) => r == Ok::<Option<i64>, RepositoryError>(v),
            None => r is Err && r->Err_0@ is Persistence,
        },
{
    match t {
        None => Ok(None),
        Some(s) => match parse_time(s.as_str()) {
            Ok(v) => Ok(Some(v)),
            Err(e) => Err(e),
        },
    }
}

pub fn parse_owner_scope(t: &str) -> (r: Result<OwnerScope, RepositoryError>)
    ensures
        match owner_scope_named(t@) {
            Some(v) => r == Ok::<OwnerScope, RepositoryError>(v),
            None => r is Err && r->Err_0@ == RepositoryErrorView::Persistence("unknown owner scope"@),
        },
{
    proof {
        reveal_strlit("\"guest\"");
        reveal_strlit("\"account\"");
    }
    if crate::text::text_eq(t, "\"guest\"") {
        Ok(OwnerScope::Guest)
    } else if crate::text::text_eq(t, "\"account\"") {
        Ok(OwnerScope::Account)
    } else {
        Err(RepositoryError::persistence("unknown owner scope"))
    }
}

pub fn parse_status(t: &str) -> (r: Result<WordStatus, RepositoryError>)
    ensures
        match status_named(t@) {
            Some(v) => r == Ok::<WordStatus, RepositoryError>(v),
            None => r is Err && r->Err_0@ == RepositoryErrorView::Persistence("unknown learning status"@),
        },
{
    proof {
        reveal_strlit("\"learning\"");
        reveal_strlit("\"paused\"");
        reveal_strlit("\"mastered\"");
    }
    if crate::text::text_eq(t, "\"learning\"") {
        Ok(WordStatus::Learning)
    } else if crate::text::text_eq(t, "\"paused\"") {
        Ok(WordStatus::Paused)
    } else if crate::text::text_eq(t, "\"mastered\"") {
        Ok(WordStatus::Mastered)
    } else {
        Err(RepositoryError::persistence("unknown learning status"))
    }
}

/// The Vocabulary Item a stored row holds. It is refused, as a persistence
/// error, exactly when one of its columns does not read: an identifier that
/// is no UUID, an unknown owner scope or learning status, or a timestamp
/// that is no RFC 3339 text.
pub fn decode_word(row: WordRow) -> (r: Result<Word, RepositoryError>)
    ensures
        r is Ok <==> row_reads(row),
        r matches Ok(w) ==> w == row_word(row),
        r matches Err(e) ==> e@ is Persistence,
{
    let id = match parse_id(row.id.as_str()) {
        Ok(v) => v,
        Err(e) => return Err(e),
    };
    let owner_scope = match parse_owner_scope(row.owner_scope.as_str()) {
        Ok(v) => v,
        Err(e) => return Err(e),
    };
    let status = match parse_status(row.status.as_str()) {
        Ok(v) => v,
        Err(e) => return Err(e),
    };
    let created_at = match parse_time(row.created_at.as_str()) {
        Ok(v) => v,
        Err(e) => return Err(e),
    };
    let updated_at = match parse_time(row.updated_at.as_str()) {
        Ok(v) => v,
        Err(e) => return Err(e),
    };
    let deleted_at = match parse_optional_time(&row.deleted_at) {
        Ok(v) => v,
        Err(e) => return Err(e),
    };
    let mastered_at = match parse_optional_time(&row.mastered_at) {
        Ok(v) => v,
        Err(e) => return Err(e),
    };
    let achieved_at = match parse_optional_time(&row.achieved_at) {
        Ok(v) => v,
        Err(e) => return Err(e),
    };
    let delete_after = match parse_optional_time(&row.delete_after) {
        Ok(v) => v,
        Err(e) => return Err(e),
    };
    let review_state = match parse_optional_time(&row.review_due_at) {
        Ok(Some(d)) => Some(ReviewState { due_at: d }),
        Ok(None) => None,
        Err(e) => return Err(e),
    };
    Ok(Word {
        id,
        owner_scope,
        lemma: row.lemma,
        display_form: row.display_form,
        source_language: row.source_language,
        target_language: row.target_language,
        translation: row.translation,
        part_of_speech: row.part_of_speech,
        status,
        created_at,
        updated_at,
        deleted_at,
        mastered_at,
        achieved_at,
        delete_after,
        review_state,
    })
}

} // verus!
