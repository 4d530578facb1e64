use chrono::Datelike;
use vocab::domain::{CaptureOrigin, Encounter, OwnerScope, RepositoryError, ReviewState, SavedTranslation, Word, WordStatus};
use vocab::storage::capture::{check_expected, prepare_capture};
use vocab::storage::diagnostics::{failure_code, CheckIssue, CheckReport, SqliteErrorCode};
use vocab::storage::export::{spreadsheet_text, vocabulary_csv};
use vocab::storage::identity::{candidates, capture_match, dedupe_key, normalize_lemma, reconcile_identity, resolved_source_language, scoped_key};
use vocab::storage::lifecycle::{
    archive_deleted, change_learning_status, check_capture_undo, check_deletable, check_learning_undo,
    learning_status_target, learning_undo_target, outbox_entity_type, restore_learning_state, snapshot, unachieve_words,
    DeletedCounts, LifetimeArchive,
};
use vocab::storage::listing::{preferred_translation, vocabulary_listing, ListingRow};
use vocab::storage::merge::{adopt_latest_translation, merge_words};
use vocab::storage::reconcile::identity_groups;
use vocab::storage::record::CaptureRecord;
use vocab::storage::schema::{upgrade_plan, SchemaColumns};
use vocab::storage::stats::{count_of, database_summary, lifetime_statistics, CurrentCounts, SummaryCounts};
use vocab::storage::translations::{apply_saved_translation, current_translations, restore_latest_translation, saved_translation};
use vocab::storage::vocabulary_log::{count_after_save, count_after_undo, vocabulary_log, LogCoverage};
use vocab::storage::outbox::outbox_entry;
use vocab::storage::vocabulary_log::{FIRST_CALENDAR_DAY, LAST_CALENDAR_DAY};
use vocab::storage::capture_undo::{capture_undo_plan, BeforeCapture, CaptureUndoPlan};
use vocab::storage::diagnostics::valid_review_rating;
use vocab::storage::word_row::{decode_word, parse_id, parse_owner_scope, parse_status, parse_time, WordRow};

fn word(id: u128, lemma: &str, source: &str) -> Word {
    Word {
        id,
        owner_scope: OwnerScope::Guest,
        lemma: lemma.into(),
        display_form: lemma.into(),
        source_language: source.into(),
        target_language: "zh".into(),
        translation: None,
        part_of_speech: None,
        status: WordStatus::Learning,
        created_at: 1_000,
        updated_at: 1_000,
        deleted_at: None,
        mastered_at: None,
        achieved_at: None,
        delete_after: None,
        review_state: None,
    }
}

fn achieved(mut w: Word, at: i64, deadline: i64) -> Word {
    w.status = WordStatus::Mastered;
    w.mastered_at = Some(at);
    w.achieved_at = Some(at);
    w.delete_after = Some(deadline);
    w
}

fn capture(selected_text: &str, source: &str) -> CaptureRecord {
    CaptureRecord {
        selected_text: selected_text.into(),
        lemma: selected_text.into(),
        sentence: format!("A sentence with {selected_text}."),
        source_language: source.into(),
        target_language: " ZH ".into(),
        translation: Some("  翻译 ".into()),
        part_of_speech: None,
        source_app: Some("Safari".into()),
        source_title: None,
        source_url: None,
        capture_origin: CaptureOrigin::Accessibility,
        captured_at: 5_000,
    }
}

fn listing_row(w: Word, encounters: usize, last: Option<i64>) -> ListingRow {
    ListingRow { word: w, encounter_count: encounters, last_captured_at: last, translation: None, translation_language: None }
}

#[test]
fn csv_handles_starters_unicode_and_formula_text() {
    let mut item = word(7, "test", "en");
    item.display_form = "=秘密,\"x\"\nnext".into();
    let rows = vocabulary_listing(vec![listing_row(item.duplicate(), 0, None)]);
    let (bytes, count) = vocabulary_csv(&rows).unwrap();
    assert_eq!(count, 1);
    assert_eq!(&bytes[..3], &[0xef, 0xbb, 0xbf]);
    let mut reader = csv::Reader::from_reader(&bytes[3..]);
    let row = reader.records().next().unwrap().unwrap();
    assert_eq!(&row[0], "'=秘密,\"x\"\nnext");
    assert_eq!(&row[5], "0");
    assert_eq!(&row[6], "");
    item.achieved_at = Some(2_000);
    let rows = vocabulary_listing(vec![listing_row(item, 0, None)]);
    assert_eq!(vocabulary_csv(&rows).unwrap().1, 0);
}

#[test]
fn csv_rows_carry_status_count_and_last_encounter_time() {
    let mut w = word(9, "serendipity", "en");
    w.status = WordStatus::Paused;
    let mut row = listing_row(w, 2, Some(1_700_000_000_000_000));
    row.translation = Some("偶然".into());
    row.translation_language = Some("zh".into());
    let rows = vocabulary_listing(vec![row]);
    let (bytes, _) = vocabulary_csv(&rows).unwrap();
    let text = String::from_utf8(bytes[3..].to_vec()).unwrap();
    assert!(text.starts_with(
        "vocabulary,source_language,translation,translation_language,learning_status,encounter_count,last_encounter_at\r\n"
    ));
    assert!(text.ends_with("serendipity,en,偶然,zh,paused,2,2023-11-14T22:13:20+00:00\r\n"));
}

#[test]
fn spreadsheet_text_quotes_formula_and_control_starters() {
    assert_eq!(spreadsheet_text("=SUM(A1)"), "'=SUM(A1)");
    assert_eq!(spreadsheet_text("  +1"), "'  +1");
    assert_eq!(spreadsheet_text("-x"), "'-x");
    assert_eq!(spreadsheet_text("@here"), "'@here");
    assert_eq!(spreadsheet_text("\tTab"), "'\tTab");
    assert_eq!(spreadsheet_text("plain - text"), "plain - text");
    assert_eq!(spreadsheet_text(""), "");
}

#[test]
fn listing_orders_by_last_seen_then_id_and_hides_retired_items() {
    let mut deleted = word(4, "gone", "en");
    deleted.deleted_at = Some(10);
    let rows = vec![
        listing_row(word(3, "older", "en"), 1, Some(100)),
        listing_row(word(2, "tie-b", "en"), 1, Some(200)),
        listing_row(word(1, "tie-a", "en"), 1, Some(200)),
        listing_row(deleted, 1, Some(300)),
        listing_row(achieved(word(5, "done", "en"), 1, 2), 1, Some(400)),
        listing_row(word(6, "unseen", "de"), 0, None),
    ];
    let listed = vocabulary_listing(rows);
    let ids: Vec<u128> = listed.iter().map(|(item, _)| item.id).collect();
    assert_eq!(ids, vec![6, 1, 2, 3]);
    assert_eq!(listed[0].0.last_seen_at, 1_000);
    assert_eq!(listed[0].1, "de");
}

#[test]
fn preferred_translation_takes_the_target_language_then_the_latest() {
    let history = vec![("de".to_string(), "Zufall".to_string()), ("zh".to_string(), "偶然".to_string()), ("fr".to_string(), "hasard".to_string())];
    assert_eq!(preferred_translation(&history, "ZH"), Some(("偶然".to_string(), "zh".to_string())));
    assert_eq!(preferred_translation(&history, "ja"), Some(("hasard".to_string(), "fr".to_string())));
    assert_eq!(preferred_translation(&Vec::new(), "zh"), None);
}

#[test]
fn keys_are_normalized_and_scoped_by_owner() {
    assert_eq!(normalize_lemma("  Serendipity "), "serendipity");
    assert_eq!(dedupe_key(" Straße ", " DE "), "straße|de");
    let w = word(1, "serendipity", "en");
    assert_eq!(scoped_key(&w, "serendipity|en"), "\"guest\"|serendipity|en");
    let mut gone = word(0x0192_3456_789a_7bcd_8ef0_1234_5678_9abc, "x", "en");
    gone.deleted_at = Some(1);
    assert_eq!(scoped_key(&gone, "x|en"), "deleted:01923456-789a-7bcd-8ef0-123456789abc");
}

#[test]
fn automatic_source_joins_the_only_known_language() {
    let all = vec![word(1, "serendipity", "en"), word(2, "serendipity", "auto"), word(3, "other", "en")];
    let found = candidates(&all, &capture("Serendipity", "auto"));
    let ids: Vec<u128> = found.iter().map(|w| w.id).collect();
    assert_eq!(ids, vec![1, 2]);
    let mixed = vec![word(1, "serendipity", "en"), word(2, "serendipity", "fr"), word(3, "serendipity", "auto")];
    let found = candidates(&mixed, &capture("serendipity", "auto"));
    assert_eq!(found.iter().map(|w| w.id).collect::<Vec<_>>(), vec![3]);
    let found = candidates(&mixed, &capture("serendipity", "fr"));
    assert_eq!(found.iter().map(|w| w.id).collect::<Vec<_>>(), vec![2]);
}

#[test]
fn capture_notice_prefers_an_achieved_match() {
    let all = vec![word(1, "serendipity", "auto"), achieved(word(2, "serendipity", "en"), 10, 20)];
    let notice = capture_match(&all, &capture("serendipity", "auto")).unwrap();
    assert_eq!(notice.id, 2);
    assert!(capture_match(&all, &capture("unrelated", "en")).is_none());
}

#[test]
fn a_new_capture_creates_a_learning_item_with_its_translation() {
    let input = capture("  Serendipity ", "EN");
    let prepared = prepare_capture(&input, false, None, 6_000).unwrap();
    assert!(!prepared.is_existing_word);
    let w = &prepared.word;
    assert_eq!((w.id >> 76) & 0xf, 7);
    assert_eq!(w.lemma, "serendipity");
    assert_eq!(w.display_form, "Serendipity");
    assert_eq!(w.source_language, "en");
    assert_eq!(w.target_language, "zh");
    assert_eq!(w.translation.as_deref(), Some("翻译"));
    assert_eq!(w.status, WordStatus::Learning);
    assert_eq!(w.review_state, Some(ReviewState { due_at: 5_000 }));
    let e = &prepared.encounter;
    assert_eq!(e.word_id, w.id);
    assert_eq!((e.id >> 76) & 0xf, 7);
    assert_ne!(e.id, w.id);
    assert_eq!(e.selected_text, "Serendipity");
    assert_eq!(e.capture_origin, CaptureOrigin::Accessibility);
    let saved = e.saved_translation.as_ref().unwrap();
    assert_eq!((saved.text.as_str(), saved.target_language.as_str(), saved.saved_at), ("翻译", "zh", 6_000));
}

#[test]
fn achieved_items_are_only_revived_by_an_explicit_restore() {
    let input = capture("serendipity", "en");
    let existing = achieved(word(1, "serendipity", "en"), 10, 20);
    assert_eq!(prepare_capture(&input, false, Some(existing.duplicate()), 1).err(), Some(RepositoryError::Achieved));
    let restored = prepare_capture(&input, true, Some(existing.duplicate()), 1).unwrap();
    assert!(restored.is_existing_word);
    assert_eq!(restored.word.id, 1);
    assert_eq!(restored.word.status, WordStatus::Learning);
    assert_eq!((restored.word.achieved_at, restored.word.delete_after, restored.word.mastered_at), (None, None, None));
    assert_eq!(restored.word.review_state, Some(ReviewState { due_at: 5_000 }));
    assert_eq!(check_expected(Some(1), &Some(existing.duplicate())), Ok(()));
    assert_eq!(
        check_expected(Some(2), &Some(existing)),
        Err(RepositoryError::Persistence("Vocabulary Item changed; recheck the capture before saving".into()))
    );
    assert_eq!(check_expected(None, &None), Ok(()));
}

#[test]
fn merge_keeps_the_smallest_id_and_the_least_advanced_state() {
    let mut a = word(5, "x", "en");
    a.status = WordStatus::Mastered;
    a.review_state = Some(ReviewState { due_at: 1 });
    let mut b = word(3, "x", "en");
    b.status = WordStatus::Paused;
    b.review_state = Some(ReviewState { due_at: 9 });
    b.display_form = "X".into();
    let mut c = word(4, "x", "en");
    c.status = WordStatus::Paused;
    c.review_state = Some(ReviewState { due_at: 2 });
    let merged = merge_words(&vec![a, b, c]);
    assert_eq!(merged.id, 3);
    assert_eq!(merged.display_form, "X");
    assert_eq!(merged.status, WordStatus::Paused);
    assert_eq!(merged.review_state, Some(ReviewState { due_at: 2 }));

    let all_done = merge_words(&vec![achieved(word(2, "y", "en"), 1, 50), achieved(word(1, "y", "en"), 2, 40)]);
    assert_eq!(all_done.id, 1);
    assert_eq!(all_done.delete_after, Some(50));
    assert_eq!(all_done.achieved_at, Some(1));

    let mut survivor = word(1, "y", "en");
    let latest = SavedTranslation { target_language: "de".into(), text: "Zufall".into(), saved_at: 3 };
    adopt_latest_translation(&mut survivor, Some(&latest));
    assert_eq!((survivor.target_language.as_str(), survivor.translation.as_deref()), ("de", Some("Zufall")));
}

#[test]
fn current_translations_keep_the_newest_of_each_language() {
    let t = |lang: &str, text: &str, at: i64| SavedTranslation { target_language: lang.into(), text: text.into(), saved_at: at };
    let history = vec![t("zh", "新", 3), t("de", "neu", 2), t("zh", "旧", 1)];
    let current = current_translations(&history);
    let pairs: Vec<(&str, &str)> = current.iter().map(|s| (s.target_language.as_str(), s.text.as_str())).collect();
    assert_eq!(pairs, vec![("zh", "新"), ("de", "neu")]);
}

#[test]
fn blank_translations_are_not_saved_and_undo_restores_the_latest() {
    let mut input = capture("x", "en");
    input.translation = Some("   ".into());
    assert!(saved_translation(&input, 1).is_none());
    input.translation = None;
    assert!(saved_translation(&input, 1).is_none());

    let mut w = word(1, "x", "en");
    let mut e = Encounter {
        id: 2,
        word_id: 1,
        selected_text: "x".into(),
        sentence: "x".into(),
        source_app: None,
        source_title: None,
        source_url: None,
        capture_origin: CaptureOrigin::Manual,
        saved_translation: None,
        captured_at: 7,
        updated_at: 7,
        deleted_at: None,
    };
    apply_saved_translation(&mut w, &mut e, SavedTranslation { target_language: "de".into(), text: "x-de".into(), saved_at: 7 }, 7);
    assert_eq!((w.translation.as_deref(), w.target_language.as_str(), w.updated_at), (Some("x-de"), "de", 7));
    assert_eq!(e.saved_translation.as_ref().map(|s| s.text.as_str()), Some("x-de"));
    restore_latest_translation(&mut w, None, 9);
    assert_eq!((w.translation, w.target_language.as_str(), w.updated_at), (None, "de", 9));
}

#[test]
fn undo_restores_the_daily_count_and_refuses_an_inconsistent_day() {
    let saved = count_after_save(Some(4));
    assert_eq!(saved, 5);
    assert_eq!(count_after_undo(Some(saved)), Ok(4));
    assert_eq!(count_after_undo(Some(count_after_save(None))), Ok(0));
    let inconsistent = Err(RepositoryError::Persistence("daily capture count is inconsistent".into()));
    assert_eq!(count_after_undo(Some(0)), inconsistent);
    assert_eq!(count_after_undo(None), inconsistent);
}

#[test]
fn vocabulary_log_covers_twelve_months_with_honest_coverage() {
    let day = |y: i32, m: u32, d: u32| chrono::NaiveDate::from_ymd_opt(y, m, d).unwrap().num_days_from_ce();
    let end = day(2024, 3, 15);
    let started = day(2024, 3, 10);
    let counts = vec![(day(2024, 3, 1), 2), (day(2024, 3, 10), 1), (day(2024, 3, 12), 4)];
    let log = vocabulary_log(end, started, &counts).unwrap();
    assert_eq!(log.start_date, day(2023, 3, 16));
    assert_eq!(log.end_date, end);
    assert_eq!(log.days.len(), 366);
    let at = |d: i32| log.days.iter().find(|x| x.date == d).unwrap();
    assert_eq!((at(day(2024, 2, 1)).count, at(day(2024, 2, 1)).coverage), (None, LogCoverage::Unknown));
    assert_eq!((at(day(2024, 3, 1)).count, at(day(2024, 3, 1)).coverage), (Some(2), LogCoverage::Partial));
    assert_eq!((at(day(2024, 3, 10)).count, at(day(2024, 3, 10)).coverage), (Some(1), LogCoverage::Partial));
    assert_eq!((at(day(2024, 3, 11)).count, at(day(2024, 3, 11)).coverage), (Some(0), LogCoverage::Complete));
    assert_eq!((at(day(2024, 3, 12)).count, at(day(2024, 3, 12)).coverage), (Some(4), LogCoverage::Complete));
}

#[test]
fn learning_status_undo_puts_back_the_previous_state() {
    let mut w = word(1, "x", "en");
    w.review_state = Some(ReviewState { due_at: 44 });
    let before = snapshot(&w);
    assert!(change_learning_status(&mut w, WordStatus::Mastered, 100));
    assert_eq!((w.status, w.mastered_at, w.updated_at), (WordStatus::Mastered, Some(100), 100));
    assert!(!change_learning_status(&mut w, WordStatus::Mastered, 200));
    assert_eq!(w.updated_at, 100);
    assert_eq!(check_learning_undo(Some((3, 3))), Ok(()));
    assert_eq!(check_learning_undo(Some((3, 4))), Err(RepositoryError::StaleLearningStatusUndo));
    assert_eq!(check_learning_undo(None), Err(RepositoryError::StaleLearningStatusUndo));
    let mut w = learning_undo_target(Some(w)).unwrap();
    restore_learning_state(&mut w, &before, 300);
    assert_eq!(snapshot(&w), before);
    assert_eq!(w.updated_at, 300);
}

#[test]
fn learning_status_changes_need_a_live_item_that_is_not_achieved() {
    assert_eq!(learning_status_target(None).err(), Some(RepositoryError::NotFound));
    let mut gone = word(1, "x", "en");
    gone.deleted_at = Some(1);
    assert_eq!(learning_status_target(Some(gone.duplicate())).err(), Some(RepositoryError::NotFound));
    assert_eq!(learning_status_target(Some(achieved(word(2, "y", "en"), 1, 2))).err(), Some(RepositoryError::Achieved));
    assert_eq!(learning_status_target(Some(word(3, "z", "en"))).unwrap().id, 3);
    assert_eq!(learning_undo_target(Some(gone)).err(), Some(RepositoryError::StaleLearningStatusUndo));
}

#[test]
fn only_achieved_items_can_be_deleted_or_returned() {
    let a = achieved(word(1, "x", "en"), 5, 6);
    let live = word(2, "y", "en");
    assert_eq!(check_deletable(&vec![Some(a.duplicate())]), Ok(()));
    assert_eq!(check_deletable(&vec![Some(a.duplicate()), None, Some(live.duplicate())]), Err(RepositoryError::NotFound));
    assert_eq!(
        check_deletable(&vec![Some(a.duplicate()), Some(live.duplicate()), None]),
        Err(RepositoryError::Persistence("only Achieved Vocabulary Items can be permanently deleted".into()))
    );
    let back = unachieve_words(&vec![Some(a.duplicate())], 9).unwrap();
    assert_eq!((back[0].achieved_at, back[0].delete_after, back[0].updated_at), (None, None, 9));
    assert_eq!(back[0].status, WordStatus::Mastered);
    assert_eq!(
        unachieve_words(&vec![Some(live)], 9).err(),
        Some(RepositoryError::Persistence("Vocabulary Item is not Achieved".into()))
    );
}

#[test]
fn deleted_items_accumulate_in_the_lifetime_archive() {
    let counts = DeletedCounts { encounters: 3, reviews: 2, remembered: 1, forgotten: 1 };
    let first = archive_deleted(None, counts);
    assert_eq!(
        first,
        LifetimeArchive { vocabulary_count: 1, encounter_count: 3, review_count: 2, remembered_count: 1, forgotten_count: 1, rating_breakdown_complete: true }
    );
    let mut incomplete = first;
    incomplete.rating_breakdown_complete = false;
    let second = archive_deleted(Some(incomplete), DeletedCounts { encounters: 1, reviews: 0, remembered: 0, forgotten: 0 });
    assert_eq!((second.vocabulary_count, second.encounter_count, second.review_count), (2, 4, 2));
    assert!(!second.rating_breakdown_complete);
}

#[test]
fn capture_undo_is_refused_after_a_later_change() {
    assert_eq!(check_capture_undo::<u8>(None), Ok(None));
    assert_eq!(check_capture_undo(Some((7u8, 2, 2))), Ok(Some(7)));
    assert_eq!(
        check_capture_undo(Some((7u8, 2, 3))),
        Err(RepositoryError::Persistence(
            "Cannot undo: this Vocabulary Item changed after the capture. No changes were undone.".into()
        ))
    );
    assert_eq!(outbox_entity_type("encounters"), Some("encounter"));
    assert_eq!(outbox_entity_type("review_logs"), Some("review_log"));
    assert_eq!(outbox_entity_type("translation_history"), None);
}

#[test]
fn newer_databases_are_refused_and_missing_columns_are_added() {
    let none = SchemaColumns {
        capture_origin: false,
        review_result: false,
        lifecycle: false,
        rating_breakdown: false,
        saved_local_date: false,
        saved_translation: false,
        identity_reconciled: false,
    };
    assert_eq!(
        upgrade_plan(10, none).err(),
        Some(RepositoryError::Persistence("Database was created by a newer app version".into()))
    );
    let plan = upgrade_plan(1, none).unwrap();
    assert!(plan.add_capture_origin && plan.add_lifecycle && plan.reconcile_identities);
    let all = SchemaColumns { capture_origin: true, review_result: true, lifecycle: true, rating_breakdown: true, saved_local_date: true, saved_translation: true, identity_reconciled: true };
    let reopened = upgrade_plan(vocab::storage::schema::CURRENT_SCHEMA_VERSION, all).unwrap();
    assert!(!reopened.add_capture_origin && !reopened.add_lifecycle && !reopened.reconcile_identities);
    let plan = upgrade_plan(8, all).unwrap();
    assert!(!plan.add_capture_origin && !plan.add_review_result && !plan.add_lifecycle && !plan.add_rating_breakdown);
    assert!(!plan.add_saved_local_date && !plan.add_translation_history && !plan.reconcile_identities);
}

#[test]
fn statistics_refuse_negative_counts() {
    assert_eq!(count_of(5), Ok(5));
    let conversion = Err(RepositoryError::Persistence("out of range integral type conversion attempted".into()));
    assert_eq!(count_of(-1), conversion);
    let current = CurrentCounts { vocabulary: 3, achieved: 1, active_encounters: 4, reviews: 2, remembered: 1, forgotten: 1 };
    let stats = lifetime_statistics(current, None).unwrap();
    assert_eq!((stats.current_vocabulary_count, stats.archived_vocabulary_count, stats.rating_breakdown_complete), (3, 0, true));
    let bad = CurrentCounts { reviews: -2, ..current };
    assert_eq!(lifetime_statistics(bad, None).err(), conversion.err());
    let summary = database_summary(9, true, SummaryCounts { words: 1, active_encounters: 2, review_logs: 0, pending_outbox: 3 }, None).unwrap();
    assert_eq!((summary.schema_version, summary.word_count, summary.active_encounter_count, summary.pending_outbox_count), (9, 1, 2, 3));
}

#[test]
fn check_report_records_each_issue_once_and_classifies_its_end() {
    let mut report = CheckReport::new("2024-01-01T00:00:00+00:00".into(), "3.45.0".into(), Some(4096));
    assert_eq!((report.status.as_str(), report.stage.as_str()), ("incomplete", "structure"));
    assert!(report.check_schema_version(9));
    report.advance();
    assert_eq!((report.coverage.clone(), report.stage.as_str()), (vec!["structure".to_string()], "sqlite"));
    report.advance();
    assert_eq!(report.stage, "relationships");
    report.record_issue(CheckIssue::ForeignKeyViolation);
    report.record_issue(CheckIssue::ForeignKeyViolation);
    report.advance();
    assert_eq!(report.stage, "formats");
    report.advance();
    report.advance();
    report.record_counts(1, 2, 3, 4);
    report.finish(false, false, false, None, 12);
    assert_eq!(report.issues, vec!["foreign_key_violation".to_string()]);
    assert_eq!(report.status, "issues");
    assert_eq!(report.stage, "formats");
    let stages = ["structure", "quick_check", "foreign_keys", "application_formats"];
    assert_eq!(report.coverage, stages.iter().map(|s| s.to_string()).collect::<Vec<_>>());
    assert_eq!(report.counts[0], ("encounters".to_string(), 2));
    assert_eq!(report.counts[3], ("vocabulary".to_string(), 1));

    let mut newer = CheckReport::new(String::new(), String::new(), None);
    assert!(!newer.check_schema_version(100));
    newer.finish(false, true, false, None, 1);
    assert_eq!(newer.issues, vec!["unsupported_schema_version".to_string()]);
    assert_eq!(newer.status, "incomplete");

    let mut busy = CheckReport::new(String::new(), String::new(), None);
    busy.finish(false, true, false, Some(SqliteErrorCode::DatabaseLocked), u128::MAX);
    assert_eq!((busy.status.as_str(), busy.issues.clone(), busy.elapsed_ms), ("incomplete", vec!["database_busy".to_string()], u64::MAX));

    let mut cancelled = CheckReport::new(String::new(), String::new(), None);
    cancelled.finish(true, true, false, None, 0);
    assert_eq!((cancelled.status.as_str(), cancelled.issues.len()), ("cancelled", 0));

    let mut clean = CheckReport::new(String::new(), String::new(), None);
    for _ in 0..4 {
        clean.advance();
    }
    assert!(clean.coverage_complete());
    clean.finish(false, false, false, None, 0);
    assert_eq!((clean.status.as_str(), clean.issues.len()), ("passed", 0));

    let mut partial = CheckReport::new(String::new(), String::new(), None);
    partial.advance();
    assert!(!partial.coverage_complete());
    partial.finish(false, false, false, None, 0);
    assert_eq!((partial.status.as_str(), partial.issues.clone()), ("incomplete", vec!["check_could_not_complete".to_string()]));

    assert_eq!(failure_code(true, Some(SqliteErrorCode::CannotOpen)), "check_time_limit");
    assert_eq!(failure_code(false, Some(SqliteErrorCode::CannotOpen)), "database_unavailable");
    assert_eq!(failure_code(false, Some(SqliteErrorCode::NotADatabase)), "database_unreadable");
    assert_eq!(failure_code(false, None), "check_could_not_complete");
}

#[test]
fn reconciliation_normalizes_fixture_lemmas_and_groups_duplicates() {
    let mut fixture = word(1, "qa-fixture-12-serendipity", " EN ");
    fixture.display_form = "Serendipity".into();
    reconcile_identity(&mut fixture);
    assert_eq!((fixture.lemma.as_str(), fixture.source_language.as_str()), ("serendipity", "en"));
    let mut not_fixture = word(2, "qa-fixture-x-serendipity", "en");
    not_fixture.display_form = "Serendipity".into();
    reconcile_identity(&mut not_fixture);
    assert_eq!(not_fixture.lemma, "qa-fixture-x-serendipity");

    let mut upper = word(3, "Serendipity ", "EN");
    upper.display_form = "Serendipity".into();
    let groups = identity_groups(&vec![upper, word(4, "apple", "en"), word(5, "serendipity", "en"), word(6, "apple", "fr")]);
    let shape: Vec<(String, Vec<u128>)> =
        groups.iter().map(|g| (g.key.iter().collect::<String>(), g.words.iter().map(|w| w.id).collect())).collect();
    let mut sorted: Vec<(String, Vec<u128>)> = shape
        .iter()
        .map(|(k, ids)| {
            let mut ids = ids.clone();
            ids.sort();
            (k.clone(), ids)
        })
        .collect();
    sorted.sort();
    assert_eq!(
        sorted,
        vec![
            ("\"guest\"|apple|en".to_string(), vec![4]),
            ("\"guest\"|apple|fr".to_string(), vec![6]),
            ("\"guest\"|serendipity|en".to_string(), vec![3, 5]),
        ]
    );
    let keys: Vec<String> = shape.iter().map(|(k, _)| k.clone()).collect();
    let mut ordered = keys.clone();
    ordered.sort();
    assert_eq!(keys, ordered);
}

#[test]
fn a_resolved_item_takes_the_first_known_source_language() {
    let found = vec![word(1, "x", "auto"), word(2, "x", "fr"), word(3, "x", "en")];
    assert_eq!(resolved_source_language(&found, "auto"), "fr");
    assert_eq!(resolved_source_language(&vec![word(1, "x", "auto")], " DE "), "de");
    assert_eq!(resolved_source_language(&Vec::new(), "EN"), "en");
}

#[test]
fn a_repeated_capture_joins_the_item_the_first_one_created() {
    let input = capture("Serendipity", "EN");
    let first = prepare_capture(&input, false, None, 1).unwrap();
    let stored = vec![first.word.duplicate(), word(99, "other", "en")];
    let found = candidates(&stored, &input);
    assert_eq!(found.iter().map(|w| w.id).collect::<Vec<_>>(), vec![first.word.id]);
    let again = prepare_capture(&input, false, Some(found[0].duplicate()), 2).unwrap();
    assert!(again.is_existing_word);
    assert_eq!(again.word.id, first.word.id);
    assert_ne!(again.encounter.id, first.encounter.id);
}

#[test]
fn ids_are_client_generated_uuid_v7_values() {
    let result = prepare_capture(&capture("serendipity", "en"), false, None, 1).unwrap();

    assert_eq!(uuid::Uuid::from_u128(result.word.id).get_version_num(), 7);
    assert_eq!(uuid::Uuid::from_u128(result.encounter.id).get_version_num(), 7);
    assert_ne!(result.encounter.id, uuid::Uuid::nil().as_u128());
}

#[test]
fn merging_items_with_equal_ids_keeps_the_first_survivor_and_the_last_deadline() {
    let mut first = achieved(word(1, "x", "en"), 1, 50);
    first.display_form = "first".into();
    let mut second = achieved(word(1, "x", "en"), 2, 50);
    second.display_form = "second".into();
    let merged = merge_words(&vec![first, second]);
    assert_eq!(merged.display_form, "first");
    assert_eq!(merged.achieved_at, Some(2));
}

fn stored_row() -> WordRow {
    WordRow {
        id: "00000000-0000-7000-8000-00000000002a".into(),
        owner_scope: "\"account\"".into(),
        lemma: "serendipity".into(),
        display_form: "Serendipity".into(),
        source_language: "en".into(),
        target_language: "zh".into(),
        translation: Some("机缘".into()),
        part_of_speech: None,
        status: "\"mastered\"".into(),
        created_at: "1970-01-01T00:00:01.000002+00:00".into(),
        updated_at: "1970-01-01T01:00:00+01:00".into(),
        deleted_at: None,
        mastered_at: Some("2024-01-02T03:04:05Z".into()),
        achieved_at: Some("2024-01-02T03:04:05Z".into()),
        delete_after: None,
        review_due_at: Some("1970-01-01T00:00:00.5+00:00".into()),
    }
}

#[test]
fn stored_rows_decode_into_items() {
    let w = decode_word(stored_row()).unwrap();
    assert_eq!(w.id, 0x0000_0000_0000_7000_8000_0000_0000_002a);
    assert_eq!(w.owner_scope, OwnerScope::Account);
    assert_eq!((w.lemma.as_str(), w.display_form.as_str(), w.translation.as_deref()), ("serendipity", "Serendipity", Some("机缘")));
    assert_eq!(w.status, WordStatus::Mastered);
    assert_eq!((w.created_at, w.updated_at), (1_000_002, 0));
    assert_eq!((w.deleted_at, w.delete_after), (None, None));
    assert_eq!(w.mastered_at, Some(1_704_164_645_000_000));
    assert_eq!(w.achieved_at, w.mastered_at);
    assert_eq!(w.review_state, Some(ReviewState { due_at: 500_000 }));
    let guest = decode_word(WordRow { owner_scope: "\"guest\"".into(), status: "\"paused\"".into(), review_due_at: None, ..stored_row() }).unwrap();
    assert_eq!((guest.owner_scope, guest.status, guest.review_state), (OwnerScope::Guest, WordStatus::Paused, None));
}

#[test]
fn unreadable_rows_are_refused_as_persistence_errors() {
    let refused = |row: WordRow, message: &str| assert_eq!(decode_word(row).err(), Some(RepositoryError::Persistence(message.into())));
    refused(WordRow { id: "not-a-uuid".into(), ..stored_row() }, "invalid identifier");
    refused(WordRow { owner_scope: "guest".into(), ..stored_row() }, "unknown owner scope");
    refused(WordRow { status: "\"achieved\"".into(), ..stored_row() }, "unknown learning status");
    refused(WordRow { created_at: "yesterday".into(), ..stored_row() }, "invalid timestamp");
    refused(WordRow { deleted_at: Some("2024-13-01T00:00:00Z".into()), ..stored_row() }, "invalid timestamp");
    refused(WordRow { review_due_at: Some(String::new()), ..stored_row() }, "invalid timestamp");
    assert_eq!(parse_time("2024-01-02T04:04:05+01:00"), Ok(1_704_164_645_000_000));
    assert_eq!(parse_id("00000000-0000-0000-0000-000000000001"), Ok(1));
    assert_eq!(parse_status("\"learning\""), Ok(WordStatus::Learning));
    assert!(parse_owner_scope("\"Account\"").is_err());
}

#[test]
fn undo_soft_deletes_only_the_new_encounter() {
    // The first capture of a word joined nothing: Undo leaves the word as it
    // is (still listed, no change queued); only the Encounter goes.
    let before = BeforeCapture { words: vec![], encounters: vec![], reviews: vec![], translations: vec![] };
    assert!(matches!(capture_undo_plan(before), CaptureUndoPlan::KeepItem));
    let kept = word(9, "serendipity", "en");
    let listed = vocabulary_listing(vec![listing_row(kept, 0, None)]);
    assert_eq!(listed.len(), 1);
}

#[test]
fn undo_restores_the_joined_items_and_their_rows() {
    let pair = |a: &str, b: &str| (a.to_string(), b.to_string());
    let before = BeforeCapture {
        words: vec![word(1, "run", "en"), achieved(word(2, "run", " EN "), 3_000, 9_000)],
        encounters: vec![pair("e1", "w1"), pair("e2", "w2")],
        reviews: vec![pair("r1", "w2")],
        translations: vec![pair("t1", "w1")],
    };
    match capture_undo_plan(before) {
        CaptureUndoPlan::Restore { words, repoints } => {
            assert_eq!(words.iter().map(|w| w.id).collect::<Vec<_>>(), vec![1, 2]);
            assert_eq!((words[1].status, words[1].achieved_at, words[1].delete_after), (WordStatus::Mastered, Some(3_000), Some(9_000)));
            assert_eq!((words[0].deleted_at, words[0].updated_at), (None, 1_000));
            let seen: Vec<_> = repoints
                .iter()
                .map(|m| (m.table, m.key_column, m.row.as_str(), m.word_id.as_str(), m.review_payload, m.outbox_payload))
                .collect();
            assert_eq!(
                seen,
                vec![
                    ("encounters", "id", "e1", "w1", false, true),
                    ("encounters", "id", "e2", "w2", false, true),
                    ("review_logs", "id", "r1", "w2", true, true),
                    ("translation_history", "event_id", "t1", "w1", false, false),
                ]
            );
        }
        CaptureUndoPlan::KeepItem => panic!("joined items are restored"),
    }
}

#[test]
fn only_the_two_recorded_ratings_are_valid() {
    assert!(valid_review_rating("\"remembered\""));
    assert!(valid_review_rating("\"forgot\""));
    assert!(!valid_review_rating("remembered"));
    assert!(!valid_review_rating("\"again\""));
}

#[test]
fn the_calendar_bounds_are_chronos_first_and_last_days() {
    assert_eq!(chrono::NaiveDate::MIN.num_days_from_ce(), FIRST_CALENDAR_DAY);
    assert_eq!(chrono::NaiveDate::MAX.num_days_from_ce(), LAST_CALENDAR_DAY);
    assert!(chrono::NaiveDate::from_num_days_from_ce_opt(FIRST_CALENDAR_DAY - 1).is_none());
    assert!(chrono::NaiveDate::from_num_days_from_ce_opt(LAST_CALENDAR_DAY + 1).is_none());
}

#[test]
fn outbox_rows_read_back_with_checked_ids_times_and_counts() {
    let id = "00000000-0000-7000-8000-000000000001";
    let other = "00000000-0000-7000-8000-000000000002";
    let entry = outbox_entry(id, "word".into(), other, "upsert".into(), "{}".into(), "2024-01-02T03:04:05Z", 3).unwrap();
    assert_eq!((entry.mutation_id, entry.entity_id), (0x0000_0000_0000_7000_8000_0000_0000_0001, 0x0000_0000_0000_7000_8000_0000_0000_0002));
    assert_eq!((entry.entity_type.as_str(), entry.operation.as_str(), entry.payload.as_str()), ("word", "upsert", "{}"));
    assert_eq!((entry.created_at, entry.attempt_count), (1_704_164_645_000_000, 3));
    let refused = |r: Result<_, RepositoryError>, message: &str| assert_eq!(r.err(), Some(RepositoryError::Persistence(message.into())));
    refused(outbox_entry(id, "word".into(), other, "upsert".into(), "{}".into(), "2024-01-02T03:04:05Z", -1), "out of range integral type conversion attempted");
    refused(outbox_entry(id, "word".into(), other, "upsert".into(), "{}".into(), "bad", 1 << 32), "out of range integral type conversion attempted");
    refused(outbox_entry("x", "word".into(), other, "upsert".into(), "{}".into(), "2024-01-02T03:04:05Z", 0), "invalid identifier");
    refused(outbox_entry(id, "word".into(), "", "upsert".into(), "{}".into(), "2024-01-02T03:04:05Z", 0), "invalid identifier");
    refused(outbox_entry(id, "word".into(), other, "upsert".into(), "{}".into(), "soon", 0), "invalid timestamp");
}
