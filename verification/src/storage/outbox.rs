//! The pending outbox as diagnostics show it: each stored change read back
//! with its identifiers, time and attempt count checked.

use vstd::prelude::*;
use crate::domain::{RepositoryError, RepositoryErrorView};
use crate::storage::word_row::{parse_id, parse_time, rfc3339_instant, uuid_value};

verus! {

/// A queued change. The payload is kept as its stored JSON text.
pub struct OutboxEntry {
    pub mutation_id: u128,
    pub entity_type: String,
    pub entity_id: u128,
    pub operation: String,
    pub payload: String,
    pub created_at: i64,
    pub attempt_count: u32,
}

/// Why a stored outbox row does not read, checked in this order: an attempt
/// count that is no `u32`, a mutation or entity id that is no UUID, a
/// creation time that is no RFC 3339 text.
pub open spec fn outbox_entry_error(mutation_id: Seq<char>, entity_id: Seq<char>, created_at: Seq<char>, attempts: i64) -> Option<Seq<char>> {
    if !(0 <= attempts <= u32::MAX) {
        Some("out of range integral type conversion attempted"@)
    } else if uuid_value(mutation_id) is None || uuid_value(entity_id) is None {
        Some("invalid identifier"@)
    } else if rfc3339_instant(created_at) is None {
        Some("invalid timestamp"@)
    } else {
        None
    }
}

/// A stored outbox row read back: the ids as the UUIDs their texts name, the
/// time as the instant its text names, the attempt count as a `u32`; the
/// other columns are kept as they are.
pub fn outbox_entry(
    mutation_id: &str,
    entity_type: String,
    entity_id: &str,
    operation: String,
    payload: String,
    created_at: &str,
    attempts: i64,
) -> (r: Result<OutboxEntry, RepositoryError>)
    ensures
        match outbox_entry_error(mutation_id@, entity_id@, created_at@, attempts) {
            Some(m) => r is Err && r->Err_0@ == RepositoryErrorView::Persistence(m),
            None => r matches Ok(e) && {
                &&& Some(e.mutation_id) == uuid_value(mutation_id@)
                &&& Some(e.entity_id) == uuid_value(entity_id@)
                &&& Some(e.created_at) == rfc3339_instant(created_at@)
                &&& e.attempt_count == attempts
                &&& e.entity_type == entity_type
                &&& e.operation == operation
                &&& e.payload == payload
            },
        },
{
    if attempts < 0 || attempts > u32::MAX as i64 {
        return Err(RepositoryError::persistence("out of range integral type conversion attempted"));
    }
    let mutation_id = match parse_id(mutation_id) {
        Ok(v) => v,
        Err(e) => return Err(e),
    };
    let entity_id = match parse_id(entity_id) {
        Ok(v) => v,
        Err(e) => return Err(e),
    };
    let created_at = match parse_time(created_at) {
        Ok(v) => v,
        Err(e) => return Err(e),
    };
    Ok(OutboxEntry {
        mutation_id,
        entity_type,
        entity_id,
        operation,
        payload,
        created_at,
        attempt_count: attempts as u32,
    })
}

} // verus!
