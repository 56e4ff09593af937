//! Diagnostic lines and the live latency histogram. Whether diagnostics are
//! enabled, and printing them, is the caller's part; the library decides
//! what a line says.
use crate::error::{error_code, error_code_spec, VerbalixError};
use crate::ids::{uuid_string, uuid_text};
use crate::latency::{LatencyStage, LiveLatencyAggregator};
use crate::ports::VirtualMicStatus;
use crate::selection::{
    geometry_code, geometry_code_spec, strategy_code, strategy_code_spec, SelectionGeometrySource,
    SelectionSnapshot,
};
use crate::text::{decimal, decimal_string};
use vstd::prelude::*;

verus! {

/// One diagnostic line: where it comes from, what happened, and details.
#[derive(Debug)]
pub struct DiagnosticLine {
    pub stage: String,
    pub event: String,
    pub metadata: String,
}

pub open spec fn rendered(stage: Seq<char>, event: Seq<char>, metadata: Seq<char>) -> Seq<char> {
    "[verbalix:"@ + stage + "] "@ + event + " "@ + metadata
}

impl DiagnosticLine {
    fn make(stage: &str, event: &str, metadata: String) -> (l: Self)
        ensures
            l.stage@ == stage@,
            l.event@ == event@,
            l.metadata@ == metadata@,
    {
        DiagnosticLine { stage: stage.to_owned(), event: event.to_owned(), metadata }
    }

    /// The line as printed: `[verbalix:<stage>] <event> <metadata>`.
    pub fn render(&self) -> (s: String)
        ensures
            s@ == rendered(self.stage@, self.event@, self.metadata@),
    {
        let mut s = "[verbalix:".to_owned();
        s.append(self.stage.as_str());
        s.append("] ");
        s.append(self.event.as_str());
        s.append(" ");
        s.append(self.metadata.as_str());
        s
    }
}

pub open spec fn bool_text(b: bool) -> Seq<char> {
    if b {
        "true"@
    } else {
        "false"@
    }
}

fn bool_str(b: bool) -> (s: &'static str)
    ensures
        s@ == bool_text(b),
{
    if b {
        "true"
    } else {
        "false"
    }
}

/// A selection capture was triggered.
pub fn detection(origin: &str) -> (l: DiagnosticLine)
    ensures
        l.stage@ == "detection"@,
        l.event@ == "triggered"@,
        l.metadata@ == "origin="@ + origin@,
{
    let mut m = "origin=".to_owned();
    m.append(origin);
    DiagnosticLine::make("detection", "triggered", m)
}

/// A step of the application's life cycle.
pub fn lifecycle(event: &str, origin: &str) -> (l: DiagnosticLine)
    ensures
        l.stage@ == "lifecycle"@,
        l.event@ == event@,
        l.metadata@ == "origin="@ + origin@,
{
    let mut m = "origin=".to_owned();
    m.append(origin);
    DiagnosticLine::make("lifecycle", event, m)
}

/// Whether the accessibility permission is granted.
pub fn accessibility(trusted: bool) -> (l: DiagnosticLine)
    ensures
        l.stage@ == "accessibility"@,
        l.event@ == "status"@,
        l.metadata@ == "trusted="@ + bool_text(trusted),
{
    let mut m = "trusted=".to_owned();
    m.append(bool_str(trusted));
    DiagnosticLine::make("accessibility", "status", m)
}

/// The readiness of the AI features.
pub fn ai_readiness(status: &str) -> (l: DiagnosticLine)
    ensures
        l.stage@ == "ai"@,
        l.event@ == "readiness"@,
        l.metadata@ == "status="@ + status@,
{
    let mut m = "status=".to_owned();
    m.append(status);
    DiagnosticLine::make("ai", "readiness", m)
}

pub open spec fn mic_status_label(status: VirtualMicStatus) -> Seq<char> {
    match status {
        VirtualMicStatus::NotInstalled => "not_installed"@,
        VirtualMicStatus::Installed => "installed"@,
        VirtualMicStatus::IncompatibleVersion => "incompatible_version"@,
    }
}

pub open spec fn virtual_mic_metadata_spec(status: VirtualMicStatus, buffer_depth: u32, underruns: u64) -> Seq<
    char,
> {
    "status="@ + mic_status_label(status) + " buffer_depth="@ + decimal(buffer_depth as nat)
        + " underruns="@ + decimal(underruns as nat)
}

/// `status=<status> buffer_depth=<n> underruns=<n>`.
pub fn virtual_mic_metadata(status: VirtualMicStatus, buffer_depth: u32, underruns: u64) -> (m:
    String)
    ensures
        m@ == virtual_mic_metadata_spec(status, buffer_depth, underruns),
{
    let label = match status {
        VirtualMicStatus::NotInstalled => "not_installed",
        VirtualMicStatus::Installed => "installed",
        VirtualMicStatus::IncompatibleVersion => "incompatible_version",
    };
    let mut m = "status=".to_owned();
    m.append(label);
    m.append(" buffer_depth=");
    m.append(decimal_string(buffer_depth as u128).as_str());
    m.append(" underruns=");
    m.append(decimal_string(underruns as u128).as_str());
    m
}

/// The state of the virtual microphone.
pub fn virtual_mic(status: VirtualMicStatus, buffer_depth: u32, underruns: u64) -> (l:
    DiagnosticLine)
    ensures
        l.stage@ == "virtual_mic"@,
        l.event@ == "status"@,
        l.metadata@ == virtual_mic_metadata_spec(status, buffer_depth, underruns),
{
    DiagnosticLine::make("virtual_mic", "status", virtual_mic_metadata(status, buffer_depth, underruns))
}

pub open spec fn snapshot_metadata_spec(snapshot: SelectionSnapshot) -> Seq<char> {
    "snapshot_id="@ + uuid_text(snapshot.id) + " geometry_source="@ + geometry_text(
        snapshot.geometry_source,
    ) + " extraction_strategy="@ + strategy_code_spec(
        snapshot.extraction_strategy,
    )@ + " writable="@ + bool_text(snapshot.writable)
}

/// The code of a geometry source, or `unknown` when none was recorded.
pub open spec fn geometry_text(source: Option<SelectionGeometrySource>) -> Seq<char> {
    match source {
        Some(g) => geometry_code_spec(g)@,
        None => "unknown"@,
    }
}

/// `snapshot_id=<uuid> geometry_source=<code or unknown>
/// extraction_strategy=<code> writable=<bool>`.
pub fn snapshot_metadata(snapshot: &SelectionSnapshot) -> (m: String)
    ensures
        m@ == snapshot_metadata_spec(*snapshot),
{
    let mut m = "snapshot_id=".to_owned();
    m.append(uuid_string(snapshot.id).as_str());
    m.append(" geometry_source=");
    match snapshot.geometry_source {
        Some(g) => m.append(geometry_code(g)),
        None => m.append("unknown"),
    }
    m.append(" extraction_strategy=");
    m.append(strategy_code(snapshot.extraction_strategy));
    m.append(" writable=");
    m.append(bool_str(snapshot.writable));
    m
}

/// A selection was captured.
pub fn capture_success(snapshot: &SelectionSnapshot) -> (l: DiagnosticLine)
    ensures
        l.stage@ == "capture"@,
        l.event@ == "success"@,
        l.metadata@ == snapshot_metadata_spec(*snapshot),
{
    DiagnosticLine::make("capture", "success", snapshot_metadata(snapshot))
}

/// A capture failed.
pub fn capture_failure(origin: &str, error: &VerbalixError) -> (l: DiagnosticLine)
    ensures
        l.stage@ == "capture"@,
        l.event@ == "failure"@,
        l.metadata@ == "origin="@ + origin@ + " error="@ + error_code_spec(*error)@,
{
    let mut m = "origin=".to_owned();
    m.append(origin);
    m.append(" error=");
    m.append(error_code(error));
    DiagnosticLine::make("capture", "failure", m)
}

/// A decision of the selection coordinator, about a snapshot or none.
pub fn coordinator(decision: &str, snapshot: Option<&SelectionSnapshot>) -> (l: DiagnosticLine)
    ensures
        l.stage@ == "coordinator"@,
        l.event@ == decision@,
        l.metadata@ == match snapshot {
            Some(s) => snapshot_metadata_spec(*s),
            None => "snapshot_id=none"@,
        },
{
    let m = match snapshot {
        Some(s) => snapshot_metadata(s),
        None => "snapshot_id=none".to_owned(),
    };
    DiagnosticLine::make("coordinator", decision, m)
}

/// A step of an overlay window.
pub fn overlay(stage: &str, label: &str, sequence: u64) -> (l: DiagnosticLine)
    ensures
        l.stage@ == "overlay"@,
        l.event@ == stage@,
        l.metadata@ == "label="@ + label@ + " sequence="@ + decimal(sequence as nat),
{
    let mut m = "label=".to_owned();
    m.append(label);
    m.append(" sequence=");
    m.append(decimal_string(sequence as u128).as_str());
    DiagnosticLine::make("overlay", stage, m)
}

/// An overlay window was shown or hidden.
pub fn overlay_visibility(label: &str, sequence: u64, visible: bool) -> (l: DiagnosticLine)
    ensures
        l.stage@ == "overlay"@,
        l.event@ == "visibility"@,
        l.metadata@ == "label="@ + label@ + " sequence="@ + decimal(sequence as nat)
            + " visible="@ + bool_text(visible),
{
    let mut m = "label=".to_owned();
    m.append(label);
    m.append(" sequence=");
    m.append(decimal_string(sequence as u128).as_str());
    m.append(" visible=");
    m.append(bool_str(visible));
    DiagnosticLine::make("overlay", "visibility", m)
}

pub open spec fn latency_label(stage: LatencyStage) -> Seq<char> {
    match stage {
        LatencyStage::CaptureToRequest => "capture_to_request"@,
        LatencyStage::Ttfb => "ttfb"@,
        LatencyStage::FirstAudio => "first_audio"@,
        LatencyStage::PlaybackEnd => "playback_end"@,
    }
}

/// Counts a measured duration of a live stage and reports it.
pub fn record_latency(agg: &mut LiveLatencyAggregator, stage: LatencyStage, ms: u64) -> (l:
    DiagnosticLine)
    requires
        old(agg).well_formed(),
        old(agg).total_view(stage) * 100 + 100 <= u64::MAX,
    ensures
        final(agg).well_formed(),
        final(agg).buckets_view(stage) == old(agg).buckets_view(stage).update(
            crate::latency::bucket_of(ms as nat),
            (old(agg).buckets_view(stage)[crate::latency::bucket_of(ms as nat)] + 1) as u64,
        ),
        forall|other: LatencyStage|
            other != stage ==> #[trigger] final(agg).buckets_view(other) == old(agg).buckets_view(
                other,
            ),
        final(agg).underruns_view() == old(agg).underruns_view(),
        l.stage@ == "live_latency"@,
        l.event@ == latency_label(stage),
        l.metadata@ == "ms="@ + decimal(ms as nat),
{
    let label = match stage {
        LatencyStage::CaptureToRequest => "capture_to_request",
        LatencyStage::Ttfb => "ttfb",
        LatencyStage::FirstAudio => "first_audio",
        LatencyStage::PlaybackEnd => "playback_end",
    };
    let mut m = "ms=".to_owned();
    m.append(decimal_string(ms as u128).as_str());
    agg.record(stage, ms);
    DiagnosticLine::make("live_latency", label, m)
}

/// Counts a playback underrun and reports the running total.
pub fn increment_underruns(agg: &mut LiveLatencyAggregator) -> (l: DiagnosticLine)
    requires
        old(agg).underruns_view() < u64::MAX,
    ensures
        final(agg).underruns_view() == old(agg).underruns_view() + 1,
        forall|stage: LatencyStage|
            #[trigger] final(agg).buckets_view(stage) == old(agg).buckets_view(stage),
        l.stage@ == "live_latency"@,
        l.event@ == "underrun"@,
        l.metadata@ == "total="@ + decimal(final(agg).underruns_view()),
{
    agg.increment_underruns();
    let mut m = "total=".to_owned();
    m.append(decimal_string(agg.underruns() as u128).as_str());
    DiagnosticLine::make("live_latency", "underrun", m)
}

/// Diagnostics never carry the selected text: two captures that differ only
/// in their text (and the rest of what is not reported) are described
/// alike.
pub proof fn lemma_metadata_never_carries_text(a: SelectionSnapshot, b: SelectionSnapshot)
    requires
        a.id == b.id,
        a.geometry_source == b.geometry_source,
        a.extraction_strategy == b.extraction_strategy,
        a.writable == b.writable,
    ensures
        snapshot_metadata_spec(a) == snapshot_metadata_spec(b),
{
}

} // verus!
