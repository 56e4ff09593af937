use verbalix::preferences_sync::{parse_iso8601_utc_secs, LocalSyncMeta, PreferencesSyncStore};
use verbalix::remote_preferences::{merge_preferences, plan_background_sync, RemotePreferences};
use verbalix::settings::{length_str, tone_str, AppSettings, LengthPreference, TonePreference};

#[test]
fn parses_unix_epoch_as_zero() {
    assert_eq!(parse_iso8601_utc_secs("1970-01-01T00:00:00Z"), Some(0));
}

#[test]
fn parses_known_date_to_expected_epoch_seconds() {
    assert_eq!(
        parse_iso8601_utc_secs("2026-07-25T00:00:00Z"),
        Some(20659 * 86400)
    );
}

#[test]
fn parses_date_with_fractional_seconds() {
    assert_eq!(
        parse_iso8601_utc_secs("2026-07-25T00:00:00.000000Z"),
        Some(20659 * 86400)
    );
}

#[test]
fn returns_none_for_invalid_input() {
    assert_eq!(parse_iso8601_utc_secs("not-a-date"), None);
    assert_eq!(parse_iso8601_utc_secs(""), None);
}

#[test]
fn parses_time_of_day_and_leap_day() {
    assert_eq!(parse_iso8601_utc_secs(" 1970-01-02T01:02:03Z "), Some(86400 + 3723));
    assert_eq!(
        parse_iso8601_utc_secs("2024-03-01T00:00:00Z").unwrap()
            - parse_iso8601_utc_secs("2024-02-29T00:00:00Z").unwrap(),
        86400
    );
    assert_eq!(parse_iso8601_utc_secs("1969-12-31T23:59:59Z"), None);
    assert_eq!(parse_iso8601_utc_secs("2026-0x-25T00:00:00Z"), None);
}

fn store() -> PreferencesSyncStore {
    PreferencesSyncStore::new("preferences_sync.json".to_owned())
}

#[test]
fn sidecar_record_change_increments_sequence_and_sets_timestamp() {
    let store = store();
    let meta1 = store.record_change(None, 1_000_000);
    assert_eq!(meta1.sequence, 1);
    assert_eq!(meta1.updated_at_secs, Some(1_000_000));

    let meta2 = store.record_change(Some(meta1), 2_000_000);
    assert_eq!(meta2.sequence, 2);
    assert_eq!(meta2.updated_at_secs, Some(2_000_000));
}

#[test]
fn sidecar_record_synced_preserves_sequence() {
    let store = store();
    let meta = store.record_change(None, 1_000_000);
    let meta = store.record_synced(Some(meta), 1_000_001);
    assert_eq!(meta.sequence, 1);
    assert_eq!(meta.synced_at_secs, Some(1_000_001));
    assert_eq!(meta.updated_at_secs, Some(1_000_000));
}

#[test]
fn concurrent_save_detected_by_sequence_mismatch() {
    let store = store();
    let meta = store.record_change(None, 1_000_000);
    let captured_seq = meta.sequence;
    let meta = store.record_change(Some(meta), 2_000_000);
    assert_ne!(
        meta.sequence, captured_seq,
        "concurrent save must be detectable via sequence mismatch"
    );
}

fn base_settings() -> AppSettings {
    AppSettings {
        formality: 3,
        length: LengthPreference::Balanced,
        tone: TonePreference::Technical,
        confirm_before_replace: true,
        history_enabled: false,
        automatic_toolbar: true,
        shortcut: "Cmd+Shift+V".to_owned(),
        voice_profile_id: None,
        target_language: "en".to_owned(),
    }
}

fn remote(formality: u8, updated_at: Option<&str>) -> RemotePreferences {
    RemotePreferences {
        formality,
        length: LengthPreference::Concise,
        tone: TonePreference::Friendly,
        history_enabled: true,
        updated_at: updated_at.map(|value| value.to_owned()),
    }
}

fn meta_with_timestamp(updated_at_secs: u64) -> LocalSyncMeta {
    LocalSyncMeta {
        updated_at_secs: Some(updated_at_secs),
        synced_at_secs: None,
        sequence: 1,
    }
}

fn meta_with_both(updated_at_secs: u64, synced_at_secs: u64) -> LocalSyncMeta {
    LocalSyncMeta {
        updated_at_secs: Some(updated_at_secs),
        synced_at_secs: Some(synced_at_secs),
        sequence: 1,
    }
}

#[test]
fn remote_wins_when_remote_is_strictly_newer_than_local() {
    let local = base_settings();
    let local_secs = parse_iso8601_utc_secs("2026-07-24T00:00:00Z").unwrap();
    let meta = meta_with_timestamp(local_secs);
    let outcome = merge_preferences(
        &local,
        Some(&meta),
        Some(remote(5, Some("2026-07-25T00:00:00Z"))),
    );

    assert_eq!(outcome.settings.formality, 5);
    assert_eq!(outcome.settings.length, LengthPreference::Concise);
    assert_eq!(outcome.settings.tone, TonePreference::Friendly);
    assert!(outcome.settings.history_enabled);
    assert!(!outcome.needs_push);
}

#[test]
fn local_wins_on_exact_timestamp_tie() {
    let local = base_settings();
    let same_secs = parse_iso8601_utc_secs("2026-07-25T00:00:00Z").unwrap();
    let meta = meta_with_timestamp(same_secs);
    let outcome = merge_preferences(
        &local,
        Some(&meta),
        Some(remote(5, Some("2026-07-25T00:00:00Z"))),
    );

    assert_eq!(outcome.settings.formality, local.formality);
}

#[test]
fn local_wins_when_local_is_newer_than_remote() {
    let local = base_settings();
    let local_secs = parse_iso8601_utc_secs("2026-07-26T00:00:00Z").unwrap();
    let meta = meta_with_timestamp(local_secs);
    let outcome = merge_preferences(
        &local,
        Some(&meta),
        Some(remote(5, Some("2026-07-25T00:00:00Z"))),
    );

    assert_eq!(outcome.settings.formality, local.formality);
}

#[test]
fn needs_push_when_local_wins_and_never_synced() {
    let local = base_settings();
    let local_secs = parse_iso8601_utc_secs("2026-07-26T00:00:00Z").unwrap();
    let meta = meta_with_timestamp(local_secs);
    let outcome = merge_preferences(
        &local,
        Some(&meta),
        Some(remote(5, Some("2026-07-25T00:00:00Z"))),
    );

    assert!(outcome.needs_push);
}

#[test]
fn no_push_when_local_wins_but_already_synced_with_same_timestamp() {
    let local = base_settings();
    let ts = parse_iso8601_utc_secs("2026-07-26T00:00:00Z").unwrap();
    let meta = meta_with_both(ts, ts);
    let outcome = merge_preferences(
        &local,
        Some(&meta),
        Some(remote(5, Some("2026-07-25T00:00:00Z"))),
    );

    assert!(!outcome.needs_push);
}

#[test]
fn remote_wins_when_no_sidecar_and_remote_has_timestamp() {
    let local = base_settings();
    let outcome = merge_preferences(&local, None, Some(remote(5, Some("2026-07-25T00:00:00Z"))));

    assert_eq!(outcome.settings.formality, 5);
    assert!(!outcome.needs_push);
}

#[test]
fn local_wins_when_remote_row_is_absent() {
    let local = base_settings();
    let outcome = merge_preferences(&local, None, None);

    assert_eq!(outcome.settings, local);
    assert!(!outcome.needs_push);
}

#[test]
fn local_wins_when_remote_updated_at_is_missing() {
    let local = base_settings();
    let outcome = merge_preferences(&local, None, Some(remote(5, None)));

    assert_eq!(outcome.settings, local);
}

#[test]
fn macos_only_fields_never_overwritten_when_remote_wins() {
    let local = base_settings();
    let local_secs = parse_iso8601_utc_secs("2026-07-24T00:00:00Z").unwrap();
    let meta = meta_with_timestamp(local_secs);
    let outcome = merge_preferences(
        &local,
        Some(&meta),
        Some(remote(5, Some("2026-07-25T00:00:00Z"))),
    );

    assert_eq!(
        outcome.settings.confirm_before_replace,
        local.confirm_before_replace
    );
    assert_eq!(outcome.settings.automatic_toolbar, local.automatic_toolbar);
    assert_eq!(outcome.settings.shortcut, local.shortcut);
}

#[test]
fn macos_only_fields_preserved_at_non_default_values() {
    let mut local = base_settings();
    local.confirm_before_replace = false;
    local.automatic_toolbar = false;
    local.shortcut = "Cmd+Shift+Z".to_owned();

    let local_secs = parse_iso8601_utc_secs("2026-07-24T00:00:00Z").unwrap();
    let meta = meta_with_timestamp(local_secs);
    let outcome = merge_preferences(
        &local,
        Some(&meta),
        Some(remote(5, Some("2026-07-25T00:00:00Z"))),
    );

    assert!(!outcome.settings.confirm_before_replace);
    assert!(!outcome.settings.automatic_toolbar);
    assert_eq!(outcome.settings.shortcut, "Cmd+Shift+Z");
}

#[test]
fn unparsable_remote_timestamp_keeps_local_and_pushes_unsynced_change() {
    let local = base_settings();
    let meta = meta_with_both(200, 100);
    let outcome = merge_preferences(&local, Some(&meta), Some(remote(5, Some("yesterday"))));
    assert_eq!(outcome.settings, local);
    assert!(outcome.needs_push);
}

#[test]
fn wire_names_of_preferences() {
    assert_eq!(length_str(LengthPreference::Concise), "concise");
    assert_eq!(length_str(LengthPreference::Detailed), "detailed");
    assert_eq!(tone_str(TonePreference::Assertive), "assertive");
    assert_eq!(tone_str(TonePreference::Technical), "technical");
}

#[test]
fn concurrent_save_during_fetch_leaves_local_changes_intact() {
    let store = store();
    let meta = store.record_change(None, 1_000_000);
    let captured_seq = meta.sequence;
    let meta = store.record_change(Some(meta), 2_000_000);
    assert_ne!(
        meta.sequence, captured_seq,
        "background sync must detect concurrent save and abort to preserve local edit"
    );
    let plan = plan_background_sync(
        &base_settings(),
        captured_seq,
        Some(&meta),
        Some(remote(5, Some("2030-01-01T00:00:00Z"))),
    );
    assert!(plan.is_none());
}

#[test]
fn sidecar_load_returns_none_when_file_is_absent() {
    let store = store();
    let meta = store.record_change(None, 5);
    assert_eq!(meta.sequence, 1);
    assert_eq!(meta.synced_at_secs, None);
    assert_eq!(store.path(), "preferences_sync.json");
}

#[test]
fn background_sync_adopts_newer_remote_and_saves_it_locally() {
    let local = base_settings();
    let local_secs = parse_iso8601_utc_secs("2026-07-24T00:00:00Z").unwrap();
    let meta = meta_with_timestamp(local_secs);
    let plan = plan_background_sync(
        &local,
        meta.sequence,
        Some(&meta),
        Some(remote(5, Some("2026-07-25T00:00:00Z"))),
    )
    .unwrap();
    assert_eq!(plan.settings.formality, 5);
    assert!(plan.save_local);
    assert!(!plan.push);
}

#[test]
fn background_sync_keeps_unchanged_local_without_writing_and_pushes_unsynced_change() {
    let local = base_settings();
    let meta = meta_with_timestamp(2_000_000_000);
    let plan = plan_background_sync(
        &local,
        1,
        Some(&meta),
        Some(remote(5, Some("2026-07-25T00:00:00Z"))),
    )
    .unwrap();
    assert_eq!(plan.settings.formality, 3);
    assert!(!plan.save_local);
    assert!(plan.push);
    let none = plan_background_sync(&local, 0, None, None).unwrap();
    assert!(!none.save_local && !none.push);
}

#[test]
fn merging_again_changes_nothing_more() {
    let local = base_settings();
    let local_secs = parse_iso8601_utc_secs("2026-07-24T00:00:00Z").unwrap();
    let meta = meta_with_timestamp(local_secs);
    let first = merge_preferences(&local, Some(&meta), Some(remote(5, Some("2026-07-25T00:00:00Z"))));
    let second = merge_preferences(
        &first.settings,
        Some(&meta),
        Some(remote(5, Some("2026-07-25T00:00:00Z"))),
    );
    assert_eq!(first.settings, second.settings);
    assert_eq!(second.settings.formality, 5);
}

#[test]
fn timestamps_are_read_at_byte_positions() {
    assert_eq!(parse_iso8601_utc_secs("2026\u{2013}07-25T00:00:00Z"), None);
    assert_eq!(parse_iso8601_utc_secs("2026-07-25\u{00e9}00:00:00Z"), None);
    assert_eq!(parse_iso8601_utc_secs("1970-01-01 00:00:01"), Some(1));
    assert_eq!(parse_iso8601_utc_secs("1970/01/02T00:00:00\u{00e9}"), Some(86400));
}
