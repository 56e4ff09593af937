use verbalix::diagnostics::{
    accessibility, ai_readiness, capture_failure, capture_success, coordinator, detection,
    increment_underruns, lifecycle, overlay, overlay_visibility, record_latency, virtual_mic,
    virtual_mic_metadata,
};
use verbalix::error::VerbalixError;
use verbalix::latency::{bucket_index, percentile_from_buckets, LatencyStage, LiveLatencyAggregator};
use verbalix::ports::VirtualMicStatus;
use verbalix::selection::{
    Rect, SelectionExtractionStrategy, SelectionGeometrySource, SelectionSnapshot, TextRange,
};

fn snapshot(id: u128, writable: bool) -> SelectionSnapshot {
    SelectionSnapshot::with_id(
        id,
        7,
        "pid:7".to_owned(),
        "texto".to_owned(),
        TextRange {
            location: 0,
            length: 5,
        },
        Rect {
            x_bits: 0,
            y_bits: 0,
            width_bits: 0,
            height_bits: 0,
        },
        writable,
    )
}

#[test]
fn lines_render_with_stage_event_and_metadata() {
    assert_eq!(detection("shortcut").render(), "[verbalix:detection] triggered origin=shortcut");
    assert_eq!(lifecycle("start", "tray").render(), "[verbalix:lifecycle] start origin=tray");
    assert_eq!(accessibility(true).render(), "[verbalix:accessibility] status trusted=true");
    assert_eq!(accessibility(false).metadata, "trusted=false");
    assert_eq!(ai_readiness("ready").render(), "[verbalix:ai] readiness status=ready");
    assert_eq!(overlay("shown", "toolbar", 12).render(), "[verbalix:overlay] shown label=toolbar sequence=12");
    assert_eq!(
        overlay_visibility("note", 3, false).render(),
        "[verbalix:overlay] visibility label=note sequence=3 visible=false"
    );
}

#[test]
fn virtual_mic_metadata_names_status_depth_and_underruns() {
    assert_eq!(
        virtual_mic_metadata(VirtualMicStatus::IncompatibleVersion, 480, 2),
        "status=incompatible_version buffer_depth=480 underruns=2"
    );
    assert_eq!(
        virtual_mic(VirtualMicStatus::NotInstalled, 0, 0).render(),
        "[verbalix:virtual_mic] status status=not_installed buffer_depth=0 underruns=0"
    );
    assert_eq!(virtual_mic_metadata(VirtualMicStatus::Installed, 1, 18446744073709551615),
        "status=installed buffer_depth=1 underruns=18446744073709551615");
}

#[test]
fn capture_lines_describe_the_snapshot_or_the_error() {
    let s = snapshot(0x0123_4567_89ab_cdef_0123_4567_89ab_cdef, true)
        .with_extraction_strategy(SelectionExtractionStrategy::ClipboardFallback)
        .with_geometry_source(Some(SelectionGeometrySource::FocusedElement));
    assert_eq!(
        capture_success(&s).metadata,
        "snapshot_id=01234567-89ab-cdef-0123-456789abcdef geometry_source=focused_element extraction_strategy=clipboard_fallback writable=true"
    );
    assert_eq!(
        capture_failure("polling", &VerbalixError::ProtectedField).render(),
        "[verbalix:capture] failure origin=polling error=protected_field"
    );
    assert_eq!(coordinator("idle", None).metadata, "snapshot_id=none");
    let s2 = snapshot(1, false);
    assert_eq!(
        coordinator("candidate", Some(&s2)).metadata,
        "snapshot_id=00000000-0000-0000-0000-000000000001 geometry_source=unknown extraction_strategy=selected_text writable=false"
    );
}

#[test]
fn durations_fall_into_the_first_bucket_that_holds_them() {
    assert_eq!(bucket_index(0), 0);
    assert_eq!(bucket_index(50), 0);
    assert_eq!(bucket_index(51), 1);
    assert_eq!(bucket_index(300), 4);
    assert_eq!(bucket_index(5000), 9);
    assert_eq!(bucket_index(5001), 10);
    assert_eq!(bucket_index(u64::MAX), 10);
}

#[test]
fn percentiles_read_the_bucket_reaching_the_rank() {
    let empty = [0u64; 11];
    assert_eq!(percentile_from_buckets(&empty, 50), 0);
    let mut b = [0u64; 11];
    b[0] = 1;
    b[3] = 1;
    assert_eq!(percentile_from_buckets(&b, 50), 50);
    assert_eq!(percentile_from_buckets(&b, 95), 200);
    let mut c = [0u64; 11];
    c[10] = 3;
    assert_eq!(percentile_from_buckets(&c, 50), 5001);
    let mut d = [0u64; 11];
    d[2] = 19;
    d[8] = 1;
    assert_eq!(percentile_from_buckets(&d, 95), 150);
    assert_eq!(percentile_from_buckets(&d, 96), 2000);
    assert_eq!(percentile_from_buckets(&d, 0), 150);
}

#[test]
fn aggregator_records_per_stage_and_counts_underruns() {
    let mut agg = LiveLatencyAggregator::new();
    assert!(agg.can_record(LatencyStage::Ttfb));
    let line = record_latency(&mut agg, LatencyStage::Ttfb, 120);
    assert_eq!(line.render(), "[verbalix:live_latency] ttfb ms=120");
    record_latency(&mut agg, LatencyStage::Ttfb, 40);
    record_latency(&mut agg, LatencyStage::Ttfb, 900);
    assert_eq!(agg.p50(LatencyStage::Ttfb), 150);
    assert_eq!(agg.p95(LatencyStage::Ttfb), 1000);
    assert_eq!(agg.p50(LatencyStage::FirstAudio), 0);
    let u = increment_underruns(&mut agg);
    assert_eq!(u.render(), "[verbalix:live_latency] underrun total=1");
    assert_eq!(agg.underruns(), 1);
}

#[test]
fn diagnostics_never_carry_the_selected_text() {
    let a = snapshot(5, true);
    let mut b = snapshot(5, true);
    b.text = "segredo".to_owned();
    b.pid = 99;
    assert_eq!(capture_success(&a).metadata, capture_success(&b).metadata);
    assert!(!capture_success(&b).render().contains("segredo"));
}

#[test]
fn capture_line_names_the_geometry_source_but_never_the_text() {
    let a = snapshot(9, true).with_geometry_source(Some(SelectionGeometrySource::MouseLocation));
    let mut b = snapshot(9, true).with_geometry_source(Some(SelectionGeometrySource::MouseLocation));
    b.text = "outro texto".to_owned();
    assert_eq!(capture_success(&a).render(), capture_success(&b).render());
    assert_eq!(
        capture_success(&a).render(),
        "[verbalix:capture] success snapshot_id=00000000-0000-0000-0000-000000000009 geometry_source=mouse_location extraction_strategy=selected_text writable=true"
    );
    let c = snapshot(9, true).with_geometry_source(Some(SelectionGeometrySource::SelectedRange));
    assert!(capture_success(&c).metadata.contains(" geometry_source=selected_range "));
}
