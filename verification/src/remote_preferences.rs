//! Merging the preferences stored with the account into the local settings.
//!
//! The newer side wins, by whole seconds, and a tie goes to the local side.
//! Only the account-wide fields ever come from the remote row; the fields of
//! this machine (confirmation, automatic toolbar, shortcut, voice profile,
//! target language) always stay local.
use crate::preferences_sync::{iso_seconds, parse_iso8601_utc_secs, LocalSyncMeta};
use crate::settings::{same_settings, settings_equal, AppSettings, LengthPreference, TonePreference};
use vstd::prelude::*;

verus! {

/// The preferences row stored with the account.
#[derive(Clone, Debug)]
pub struct RemotePreferences {
    pub formality: u8,
    pub length: LengthPreference,
    pub tone: TonePreference,
    pub history_enabled: bool,
    pub updated_at: Option<String>,
}

/// The merged settings, and whether the local side must be pushed to the account.
#[derive(Debug)]
pub struct MergeOutcome {
    pub settings: AppSettings,
    pub needs_push: bool,
}

/// Whether a local change has not reached the account yet.
pub open spec fn should_push_spec(updated: Option<u64>, synced: Option<u64>) -> bool {
    match (updated, synced) {
        (Some(u), Some(s)) => u > s,
        (Some(_), None) => true,
        (None, _) => false,
    }
}

/// The local settings with the account-wide fields of the remote row.
pub open spec fn apply_remote_spec(remote: RemotePreferences, local: AppSettings) -> AppSettings {
    AppSettings {
        formality: remote.formality,
        length: remote.length,
        tone: remote.tone,
        history_enabled: remote.history_enabled,
        ..local
    }
}

/// The remote row's timestamp in seconds, when it has one that parses.
pub open spec fn remote_seconds(remote: RemotePreferences) -> Option<int> {
    match remote.updated_at {
        Some(u) => iso_seconds(u@),
        None => None,
    }
}

pub open spec fn meta_updated(meta: Option<LocalSyncMeta>) -> Option<u64> {
    match meta {
        Some(m) => m.updated_at_secs,
        None => None,
    }
}

pub open spec fn meta_synced(meta: Option<LocalSyncMeta>) -> Option<u64> {
    match meta {
        Some(m) => m.synced_at_secs,
        None => None,
    }
}

/// Whether the remote row replaces the account-wide local fields: it exists,
/// carries a timestamp, and either no local change is recorded or the remote
/// one is strictly newer.
pub open spec fn remote_wins(meta: Option<LocalSyncMeta>, remote: Option<RemotePreferences>) -> bool {
    match remote {
        None => false,
        Some(r) => match remote_seconds(r) {
            None => false,
            Some(rs) => match meta_updated(meta) {
                None => true,
                Some(ls) => rs > ls,
            },
        },
    }
}

/// The result of merging: the remote fields when the remote side wins, the
/// local settings otherwise; a push is needed exactly when the local side
/// wins against an existing row and holds a change not yet synchronised.
pub open spec fn merge_spec(
    local: AppSettings,
    meta: Option<LocalSyncMeta>,
    remote: Option<RemotePreferences>,
) -> (AppSettings, bool) {
    match remote {
        None => (local, false),
        Some(r) => if remote_wins(meta, remote) {
            (apply_remote_spec(r, local), false)
        } else {
            (local, should_push_spec(meta_updated(meta), meta_synced(meta)))
        },
    }
}

pub open spec fn opt_meta(m: Option<&LocalSyncMeta>) -> Option<LocalSyncMeta> {
    match m {
        Some(x) => Some(*x),
        None => None,
    }
}

fn should_push(local_updated_at_secs: Option<u64>, synced_at_secs: Option<u64>) -> (b: bool)
    ensures
        b == should_push_spec(local_updated_at_secs, synced_at_secs),
{
    match (local_updated_at_secs, synced_at_secs) {
        (Some(updated), Some(synced)) => updated > synced,
        (Some(_), None) => true,
        (None, _) => false,
    }
}

fn apply_remote(remote: RemotePreferences, local: &AppSettings) -> (s: AppSettings)
    ensures
        s == apply_remote_spec(remote, *local),
{
    AppSettings {
        formality: remote.formality,
        length: remote.length,
        tone: remote.tone,
        history_enabled: remote.history_enabled,
        confirm_before_replace: local.confirm_before_replace,
        automatic_toolbar: local.automatic_toolbar,
        shortcut: local.shortcut.clone(),
        voice_profile_id: local.voice_profile_id,
        target_language: local.target_language.clone(),
    }
}

/// Merges the account's row (if any) into the local settings.
pub fn merge_preferences(
    local: &AppSettings,
    local_meta: Option<&LocalSyncMeta>,
    remote: Option<RemotePreferences>,
) -> (outcome: MergeOutcome)
    ensures
        (outcome.settings, outcome.needs_push) == merge_spec(*local, opt_meta(local_meta), remote),
{
    let ghost remote_in = remote;
    let remote = match remote {
        Some(r) => r,
        None => return MergeOutcome { settings: local.clone(), needs_push: false },
    };
    let local_updated_at_secs = match local_meta {
        Some(m) => m.updated_at_secs,
        None => None,
    };
    let synced_at_secs = match local_meta {
        Some(m) => m.synced_at_secs,
        None => None,
    };
    let remote_secs = match &remote.updated_at {
        Some(u) => parse_iso8601_utc_secs(u.as_str()),
        None => None,
    };
    let remote_secs = match remote_secs {
        Some(s) => s,
        None => {
            let needs_push = should_push(local_updated_at_secs, synced_at_secs);
            return MergeOutcome { settings: local.clone(), needs_push };
        },
    };
    let local_secs = match local_updated_at_secs {
        Some(s) => s,
        None => return MergeOutcome { settings: apply_remote(remote, local), needs_push: false },
    };
    if remote_secs > local_secs {
        MergeOutcome { settings: apply_remote(remote, local), needs_push: false }
    } else {
        let needs_push = should_push(Some(local_secs), synced_at_secs);
        MergeOutcome { settings: local.clone(), needs_push }
    }
}

/// A row without a usable timestamp never overrides the local settings.
pub proof fn lemma_untimed_remote_never_wins(
    local: AppSettings,
    meta: Option<LocalSyncMeta>,
    remote: RemotePreferences,
)
    requires
        remote_seconds(remote) is None,
    ensures
        merge_spec(local, meta, Some(remote)).0 == local,
{
}

/// Merging never changes a field that belongs to this machine.
pub proof fn lemma_merge_keeps_machine_fields(
    local: AppSettings,
    meta: Option<LocalSyncMeta>,
    remote: Option<RemotePreferences>,
)
    ensures
        ({
            let merged = merge_spec(local, meta, remote).0;
            &&& merged.confirm_before_replace == local.confirm_before_replace
            &&& merged.automatic_toolbar == local.automatic_toolbar
            &&& merged.shortcut == local.shortcut
            &&& merged.voice_profile_id == local.voice_profile_id
            &&& merged.target_language == local.target_language
        }),
{
}

/// On equal timestamps the local settings win, and they are pushed only if
/// they changed after the last synchronisation.
pub proof fn lemma_tie_keeps_local(
    local: AppSettings,
    meta: LocalSyncMeta,
    remote: RemotePreferences,
    secs: u64,
)
    requires
        meta.updated_at_secs == Some(secs),
        remote_seconds(remote) == Some(secs as int),
    ensures
        merge_spec(local, Some(meta), Some(remote)) == (
            local,
            should_push_spec(Some(secs), meta.synced_at_secs),
        ),
{
}

/// When the account's row wins, its fields are adopted and no push is asked.
pub proof fn lemma_remote_win_needs_no_push(
    local: AppSettings,
    meta: Option<LocalSyncMeta>,
    remote: Option<RemotePreferences>,
)
    requires
        remote_wins(meta, remote),
    ensures
        merge_spec(local, meta, remote).1 == false,
        merge_spec(local, meta, remote).0 == apply_remote_spec(remote->0, local),
{
}

/// The newer side wins, by whole seconds, and a tie goes to the local side.
/// Against an account row with a timestamp `rs`: when no local change time
/// is recorded (with or without bookkeeping) or the row is strictly newer
/// than it, the row's account-wide fields are adopted, this machine's fields
/// stay, and nothing is pushed; when the local change is as new or newer,
/// the local settings are kept whole.
pub proof fn lemma_newer_side_wins(
    local: AppSettings,
    meta: Option<LocalSyncMeta>,
    remote: RemotePreferences,
    rs: int,
)
    requires
        remote_seconds(remote) == Some(rs),
    ensures
        ({
            let changed = match meta {
                Some(m) => m.updated_at_secs,
                None => None,
            };
            let (merged, push) = merge_spec(local, meta, Some(remote));
            &&& (changed is None || rs > changed->0) ==> {
                &&& merged.formality == remote.formality
                &&& merged.length == remote.length
                &&& merged.tone == remote.tone
                &&& merged.history_enabled == remote.history_enabled
                &&& merged.confirm_before_replace == local.confirm_before_replace
                &&& merged.automatic_toolbar == local.automatic_toolbar
                &&& merged.shortcut == local.shortcut
                &&& merged.voice_profile_id == local.voice_profile_id
                &&& merged.target_language == local.target_language
                &&& !push
            }
            &&& (changed matches Some(ls) && rs <= ls) ==> merged == local
        }),
{
}

/// What a background synchronisation does once the account's row arrived.
#[derive(Debug)]
pub struct SyncPlan {
    /// The settings to adopt.
    pub settings: AppSettings,
    /// Whether they differ from the local settings and must be written.
    pub save_local: bool,
    /// Whether they must be pushed to the account.
    pub push: bool,
}

pub open spec fn meta_sequence(meta: Option<LocalSyncMeta>) -> u64 {
    match meta {
        Some(m) => m.sequence,
        None => 0,
    }
}

/// Decides a background synchronisation. `captured_sequence` is the change
/// count read when the synchronisation started, `current_meta` the
/// bookkeeping now. When a local change was recorded meanwhile nothing
/// happens; otherwise the merged settings are adopted, written locally when
/// they differ from the local settings, and pushed when the merge asks for
/// it.
pub fn plan_background_sync(
    local: &AppSettings,
    captured_sequence: u64,
    current_meta: Option<&LocalSyncMeta>,
    remote: Option<RemotePreferences>,
) -> (plan: Option<SyncPlan>)
    ensures
        meta_sequence(opt_meta(current_meta)) != captured_sequence ==> plan is None,
        meta_sequence(opt_meta(current_meta)) == captured_sequence ==> (plan matches Some(p) && (
        p.settings, p.push) == merge_spec(*local, opt_meta(current_meta), remote) && p.save_local
            == !same_settings(p.settings, *local)),
{
    let current_sequence = match current_meta {
        Some(m) => m.sequence,
        None => 0,
    };
    if current_sequence != captured_sequence {
        return None;
    }
    let outcome = merge_preferences(local, current_meta, remote);
    let save_local = !settings_equal(&outcome.settings, local);
    Some(SyncPlan { settings: outcome.settings, save_local, push: outcome.needs_push })
}

/// A merge the local side wins keeps the local settings whole, and a merge
/// the account's row wins never asks for a push.
pub proof fn lemma_sync_writes_only_changes(
    local: AppSettings,
    meta: Option<LocalSyncMeta>,
    remote: Option<RemotePreferences>,
)
    ensures
        !remote_wins(meta, remote) ==> merge_spec(local, meta, remote).0 == local,
        remote_wins(meta, remote) ==> !merge_spec(local, meta, remote).1,
{
}

/// The account's row among the rows the service returned: the first, if any.
pub fn first_row(rows: Vec<RemotePreferences>) -> (r: Option<RemotePreferences>)
    ensures
        rows@.len() == 0 ==> r is None,
        rows@.len() > 0 ==> r == Some(rows@[0]),
{
    let mut rows = rows;
    if rows.len() == 0 {
        None
    } else {
        Some(rows.remove(0))
    }
}

/// Merging again with the same row and bookkeeping settles nothing new: the
/// settings a merge gives are a fixed point of the merge.
pub proof fn lemma_merge_settles(
    local: AppSettings,
    meta: Option<LocalSyncMeta>,
    remote: Option<RemotePreferences>,
)
    ensures
        merge_spec(merge_spec(local, meta, remote).0, meta, remote).0 == merge_spec(
            local,
            meta,
            remote,
        ).0,
{
}

} // verus!
