//! The human-readable CSV export of the vocabulary list. It is a report, not
//! a reversible backup: texts that a spreadsheet would run as formulas are
//! quoted.

use vstd::prelude::*;
use crate::domain::{RepositoryError, RepositoryErrorView, WordStatus};
use crate::storage::listing::WordListItem;
use crate::storage::word_row::status_named;
use crate::text::{concat, decimal, decimal_text, starts_with_char, trim_start, trimmed_start};

verus! {

/// What chrono's `DateTime::<Utc>::to_rfc3339` writes for the instant
/// `micros` microseconds after the Unix epoch; `None` where chrono has no
/// such instant.
pub uninterp spec fn rfc3339_text(micros: int) -> Option<Seq<char>>;

/// The bytes of a `csv::Writer` with CRLF record terminators, built with the
/// default settings on a buffer that starts with `prefix`, after it wrote
/// `records` in order.
pub uninterp spec fn csv_crlf_document(prefix: Seq<u8>, records: Seq<Seq<Seq<char>>>) -> Seq<u8>;

/// Calls `chrono::DateTime::<Utc>::to_rfc3339` on the instant; the result is
/// named [`rfc3339_text`].
#[verifier::external_body]
fn rfc3339(micros: i64) -> (r: Option<String>)
    ensures
        r matches Some(s) ==> rfc3339_text(micros as int) == Some(s@),
        r is None ==> rfc3339_text(micros as int) is None,
{
    chrono::DateTime::<chrono::Utc>::from_timestamp_micros(micros).map(|t| t.to_rfc3339())
}

/// The texts of a table of strings.
pub open spec fn table_texts(t: Seq<Vec<String>>) -> Seq<Seq<Seq<char>>> {
    t.map_values(|r: Vec<String>| r@.map_values(|s: String| s@))
}

/// Writes `records` with `csv::WriterBuilder` (CRLF terminators) onto a
/// buffer that starts with `prefix`; the bytes are named
/// [`csv_crlf_document`]. The writer (not flexible) refuses only a record
/// whose length differs from the first one's, or a failing output; a `Vec`
/// output never fails, so records of equal length are always written. The
/// writer only appends to its buffer, so the bytes begin with `prefix`.
#[verifier::external_body]
fn write_csv(prefix: Vec<u8>, records: &Vec<Vec<String>>) -> (r: Result<Vec<u8>, String>)
    ensures
        r matches Ok(b) ==> b@ == csv_crlf_document(prefix@, table_texts(records@)),
        r matches Ok(b) ==> prefix@.is_prefix_of(b@),
        (forall|i: int| 0 <= i < records@.len() ==> (#[trigger] records@[i])@.len() == records@[0]@.len()) ==> r is Ok,
{
    let mut writer = csv::WriterBuilder::new().terminator(csv::Terminator::CRLF).from_writer(prefix);
    for record in records {
        writer.write_record(record).map_err(|e| e.to_string())?;
    }
    writer.into_inner().map_err(|e| e.to_string())
}

/// Whether a text starts like a spreadsheet formula.
pub open spec fn starts_formula(v: Seq<char>) -> bool {
    v.len() > 0 && (v[0] == '=' || v[0] == '+' || v[0] == '-' || v[0] == '@')
}

/// Whether a text starts with a tab or a line break.
pub open spec fn starts_control(v: Seq<char>) -> bool {
    v.len() > 0 && (v[0] == '\t' || v[0] == '\r' || v[0] == '\n')
}

/// A text as a spreadsheet shows it literally: text that starts like a
/// formula (after leading white space) or with a control character gets a
/// leading apostrophe.
pub open spec fn spreadsheet(v: Seq<char>) -> Seq<char> {
    if starts_formula(trimmed_start(v)) || starts_control(v) {
        seq!['\''] + v
    } else {
        v
    }
}

pub fn spreadsheet_text(value: &str) -> (r: String)
    ensures
        r@ == spreadsheet(value@),
{
    let t = trim_start(value);
    let formula = starts_with_char(t.as_str(), '=') || starts_with_char(t.as_str(), '+')
        || starts_with_char(t.as_str(), '-') || starts_with_char(t.as_str(), '@');
    let control = starts_with_char(value, '\t') || starts_with_char(value, '\r') || starts_with_char(value, '\n');
    if formula || control {
        proof {
            reveal_strlit("'");
            assert("'"@ == seq!['\'']);
        }
        concat("'", value)
    } else {
        String::from_str(value)
    }
}

pub open spec fn status_label(s: WordStatus) -> Seq<char> {
    match s {
        WordStatus::Learning => "learning"@,
        WordStatus::Mastered => "mastered"@,
        WordStatus::Paused => "paused"@,
    }
}

fn status_text(s: WordStatus) -> (r: String)
    ensures
        r@ == status_label(s),
{
    match s {
        WordStatus::Learning => String::from_str("learning"),
        WordStatus::Mastered => String::from_str("mastered"),
        WordStatus::Paused => String::from_str("paused"),
    }
}

/// The header record of the export.
pub open spec fn header() -> Seq<Seq<char>> {
    seq![
        "vocabulary"@,
        "source_language"@,
        "translation"@,
        "translation_language"@,
        "learning_status"@,
        "encounter_count"@,
        "last_encounter_at"@,
    ]
}

fn header_record() -> (r: Vec<String>)
    ensures
        r@.map_values(|s: String| s@) == header(),
{
    let mut r: Vec<String> = Vec::new();
    r.push(String::from_str("vocabulary"));
    r.push(String::from_str("source_language"));
    r.push(String::from_str("translation"));
    r.push(String::from_str("translation_language"));
    r.push(String::from_str("learning_status"));
    r.push(String::from_str("encounter_count"));
    r.push(String::from_str("last_encounter_at"));
    proof {
        assert(r@.map_values(|s: String| s@) =~= header());
    }
    r
}

pub open spec fn text_or_empty(o: Option<String>) -> Seq<char> {
    match o {
        Some(s) => s@,
        None => Seq::empty(),
    }
}

/// Whether the last Encounter time of a row can be written.
pub open spec fn row_time_ok(item: WordListItem) -> bool {
    item.encounter_count == 0 || rfc3339_text(item.last_seen_at as int) is Some
}

/// The record of one list row: the texts quoted for spreadsheets, the
/// status label, the count, and the time of the last Encounter (empty for
/// an item without Encounters).
pub open spec fn export_record(item: WordListItem, language: Seq<char>) -> Seq<Seq<char>> {
    seq![
        spreadsheet(item.display_form@),
        spreadsheet(language),
        spreadsheet(text_or_empty(item.translation)),
        spreadsheet(text_or_empty(item.translation_language)),
        status_label(item.status),
        decimal(item.encounter_count as nat),
        if item.encounter_count == 0 { Seq::empty() } else { rfc3339_text(item.last_seen_at as int)->Some_0 },
    ]
}

/// The records of the export: the header, then one record per row.
pub open spec fn export_table(rows: Seq<(WordListItem, String)>) -> Seq<Seq<Seq<char>>> {
    seq![header()] + rows.map_values(|r: (WordListItem, String)| export_record(r.0, r.1@))
}

fn optional_text(o: &Option<String>) -> (r: &str)
    ensures
        r@ == text_or_empty(*o),
{
    match o {
        Some(s) => s.as_str(),
        None => {
            proof {
                reveal_strlit("");
            }
            ""
        },
    }
}

fn export_row(item: &WordListItem, language: &String) -> (r: Option<Vec<String>>)
    ensures
        row_time_ok(*item) ==> (r matches Some(v) && v@.map_values(|s: String| s@) == export_record(*item, language@)),
        !row_time_ok(*item) ==> r is None,
{
    let last = if item.encounter_count == 0 {
        String::new()
    } else {
        match rfc3339(item.last_seen_at) {
            Some(t) => t,
            None => {
                return None;
            },
        }
    };
    let mut v: Vec<String> = Vec::new();
    v.push(spreadsheet_text(item.display_form.as_str()));
    v.push(spreadsheet_text(language.as_str()));
    v.push(spreadsheet_text(optional_text(&item.translation)));
    v.push(spreadsheet_text(optional_text(&item.translation_language)));
    v.push(status_text(item.status));
    v.push(decimal_text(item.encounter_count as u64));
    v.push(last);
    proof {
        assert(v@.map_values(|s: String| s@) =~= export_record(*item, language@));
    }
    Some(v)
}

/// The UTF-8 byte order mark that starts the export, so that spreadsheets
/// read it as UTF-8.
pub open spec fn bom() -> Seq<u8> {
    seq![0xefu8, 0xbbu8, 0xbfu8]
}

/// The CSV export of the vocabulary list and the number of items in it. A
/// row whose last Encounter time has no calendar form fails the export;
/// otherwise the export succeeds.
pub fn vocabulary_csv(rows: &Vec<(WordListItem, String)>) -> (r: Result<(Vec<u8>, usize), RepositoryError>)
    ensures
        (exists|i: int| 0 <= i < rows@.len() && !row_time_ok(#[trigger] rows@[i].0)) ==> r is Err
            && r->Err_0@ == RepositoryErrorView::Persistence("invalid timestamp"@),
        (forall|i: int| 0 <= i < rows@.len() ==> row_time_ok(#[trigger] rows@[i].0)) ==> r is Ok,
        r matches Ok(p) ==> p.0@ == csv_crlf_document(bom(), export_table(rows@)) && p.1 == rows@.len(),
        r matches Ok(p) ==> bom().is_prefix_of(p.0@),
        r matches Err(e) ==> e@ is Persistence,
{
    let mut records: Vec<Vec<String>> = Vec::new();
    let header = header_record();
    assert(header@.len() == header@.map_values(|s: String| s@).len());
    records.push(header);
    let mut i: usize = 0;
    while i < rows.len()
        invariant
            i <= rows@.len(),
            records@.len() == i + 1,
            forall|k: int| 0 <= k < records@.len() ==> (#[trigger] records@[k])@.len() == 7,
            table_texts(records@) == export_table(rows@.subrange(0, i as int)),
            forall|j: int| 0 <= j < i ==> row_time_ok(#[trigger] rows@[j].0),
        decreases rows.len() - i,
    {
        match export_row(&rows[i].0, &rows[i].1) {
            Some(record) => {
                let ghost before = records@;
                let ghost added = record@.map_values(|s: String| s@);
                assert(record@.len() == added.len());
                records.push(record);
                proof {
                    let s = rows@.subrange(0, i as int + 1);
                    let p = rows@.subrange(0, i as int);
                    assert(s.drop_last() =~= p);
                    let t = table_texts(records@);
                    let e = export_table(s);
                    assert(t.len() == e.len());
                    assert forall|k: int| 0 <= k < t.len() implies t[k] == e[k] by {
                        if k < t.len() - 1 {
                            assert(records@[k] == before[k]);
                            assert(t[k] == table_texts(before)[k]);
                            if k > 0 {
                                assert(s[k - 1] == p[k - 1]);
                            }
                            assert(e[k] == export_table(p)[k]);
                        } else {
                            assert(records@[k] == before.push(records@[k])[k]);
                            assert(t[k] == added);
                            assert(s[k - 1] == rows@[i as int]);
                        }
                    }
                    assert(t =~= e);
                }
            },
            None => {
                return Err(RepositoryError::persistence("invalid timestamp"));
            },
        }
        i = i + 1;
    }
    proof {
        assert(rows@.subrange(0, rows@.len() as int) =~= rows@);
    }
    let mut prefix: Vec<u8> = Vec::new();
    prefix.push(0xef);
    prefix.push(0xbb);
    prefix.push(0xbf);
    proof {
        assert(prefix@ =~= bom());
    }
    match write_csv(prefix, &records) {
        Ok(bytes) => Ok((bytes, rows.len())),
        Err(message) => Err(RepositoryError::Persistence(message)),
    }
}

/// The learning-status column of the export names each item's own status:
/// written between quotes it is the JSON name the store keeps for that
/// status, so different statuses get different labels.
pub proof fn export_status_column_names_the_items_status(rows: Seq<(WordListItem, String)>)
    ensures
        forall|i: int| #![trigger export_table(rows)[i]] 1 <= i < export_table(rows).len() ==>
            status_named(seq!['"'] + export_table(rows)[i][4] + seq!['"']) == Some(rows[i - 1].0.status),
        forall|a: WordStatus, b: WordStatus| #[trigger] status_label(a) == #[trigger] status_label(b) ==> a == b,
{
    reveal_strlit("learning");
    reveal_strlit("paused");
    reveal_strlit("mastered");
    reveal_strlit("\"learning\"");
    reveal_strlit("\"paused\"");
    reveal_strlit("\"mastered\"");
    assert forall|s: WordStatus| status_named(seq!['"'] + #[trigger] status_label(s) + seq!['"']) == Some(s) by {
        let l = "\"learning\""@;
        let p = "\"paused\""@;
        let m = "\"mastered\""@;
        assert(seq!['"'] + "learning"@ + seq!['"'] =~= l);
        assert(seq!['"'] + "paused"@ + seq!['"'] =~= p);
        assert(seq!['"'] + "mastered"@ + seq!['"'] =~= m);
        assert(l.len() != p.len() && p.len() != m.len());
        assert(l[1] != m[1]);
    }
    assert forall|i: int| #![trigger export_table(rows)[i]] 1 <= i < export_table(rows).len() implies
        status_named(seq!['"'] + export_table(rows)[i][4] + seq!['"']) == Some(rows[i - 1].0.status) by {
        assert(export_table(rows)[i] == export_record(rows[i - 1].0, rows[i - 1].1@));
        assert(export_table(rows)[i][4] == status_label(rows[i - 1].0.status));
    }
    assert forall|a: WordStatus, b: WordStatus| #[trigger] status_label(a) == #[trigger] status_label(b) implies a == b by {
        assert(status_named(seq!['"'] + status_label(a) + seq!['"']) == Some(a));
        assert(status_named(seq!['"'] + status_label(b) + seq!['"']) == Some(b));
    }
}

} // verus!
