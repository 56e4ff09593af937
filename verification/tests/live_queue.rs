use verbalix::error::VerbalixError;
use verbalix::live::{InterpretOutcome, LiveSessionId, SegmentId, SegmentResult, StageDurations};
use verbalix::live_queue::{LiveQueue, QueueEvent};

fn outcome(seg: u64, ok: bool) -> InterpretOutcome {
    let session_id = LiveSessionId(0);
    let segment_id = SegmentId(seg);
    if ok {
        InterpretOutcome {
            session_id,
            segment_id,
            result: Ok(SegmentResult {
                audio_base64: String::new(),
                detected_language: "en".to_owned(),
                stage_ms: StageDurations {
                    stt: 0,
                    translate: 0,
                    tts: 0,
                },
            }),
        }
    } else {
        InterpretOutcome {
            session_id,
            segment_id,
            result: Err(VerbalixError::InterpretationFailed),
        }
    }
}

fn ready_ids(events: &[QueueEvent]) -> Vec<u64> {
    events
        .iter()
        .filter_map(|e| {
            if let QueueEvent::Ready(o) = e {
                Some(o.segment_id.0)
            } else {
                None
            }
        })
        .collect()
}

#[test]
fn in_order_delivery() {
    let mut q = LiveQueue::new(8);
    let events = q.insert(outcome(0, true));
    assert_eq!(ready_ids(&events), vec![0]);

    let events = q.insert(outcome(1, true));
    assert_eq!(ready_ids(&events), vec![1]);
}

#[test]
fn out_of_order_buffered_and_delivered_when_predecessor_arrives() {
    let mut q = LiveQueue::new(8);

    let events = q.insert(outcome(1, true));
    assert!(ready_ids(&events).is_empty());

    let events = q.insert(outcome(2, true));
    assert!(ready_ids(&events).is_empty());

    let events = q.insert(outcome(0, true));
    assert_eq!(ready_ids(&events), vec![0, 1, 2]);
}

#[test]
fn failed_segment_unblocks_successor() {
    let mut q = LiveQueue::new(8);

    let events = q.insert(outcome(1, true));
    assert!(ready_ids(&events).is_empty());

    let events = q.insert(outcome(0, false));
    assert_eq!(ready_ids(&events), vec![0, 1]);
}

#[test]
fn at_capacity_drops_oldest_when_new_arrives() {
    let mut q = LiveQueue::new(2);

    q.insert(outcome(2, true));
    q.insert(outcome(3, true));

    let events = q.insert(outcome(4, true));

    let dropped: Vec<u64> = events
        .iter()
        .filter_map(|e| {
            if let QueueEvent::Dropped { segment_id } = e {
                Some(segment_id.0)
            } else {
                None
            }
        })
        .collect();

    assert!(dropped.contains(&2));
}

#[test]
fn reset_clears_queue_and_resets_pointer() {
    let mut q = LiveQueue::new(8);
    q.insert(outcome(1, true));
    q.insert(outcome(2, true));

    q.reset(SegmentId(0));

    let events = q.insert(outcome(0, true));
    assert_eq!(ready_ids(&events), vec![0]);
}

#[test]
fn drain_all_returns_waiting_outcomes_in_segment_order() {
    let mut q = LiveQueue::new(8);
    q.insert(outcome(5, true));
    q.insert(outcome(3, true));
    q.insert(outcome(4, false));
    let drained: Vec<u64> = q.drain_all().iter().map(|o| o.segment_id.0).collect();
    assert_eq!(drained, vec![3, 4, 5]);
    assert_eq!(q.len(), 0);
}

#[test]
fn duplicate_segment_replaces_the_waiting_outcome() {
    let mut q = LiveQueue::new(8);
    q.insert(outcome(1, true));
    q.insert(outcome(1, false));
    assert_eq!(q.len(), 1);
    let events = q.insert(outcome(0, true));
    assert_eq!(ready_ids(&events), vec![0, 1]);
    match &events[1] {
        QueueEvent::Ready(o) => assert!(o.result.is_err()),
        _ => panic!("expected a ready outcome"),
    }
}

#[test]
fn nothing_deliverable_stays_buffered_after_an_insert() {
    let mut q = LiveQueue::new(2);
    assert!(q.insert(outcome(2, true)).is_empty());
    assert_eq!(ready_ids(&q.insert(outcome(0, true))), vec![0]);
    assert_eq!(ready_ids(&q.insert(outcome(1, true))), vec![1, 2]);
    assert_eq!(q.len(), 0);
    assert_eq!(ready_ids(&q.insert(outcome(3, true))), vec![3]);
    assert_eq!(q.len(), 0);
}

#[test]
fn a_stale_outcome_can_block_a_deliverable_one() {
    let mut q = LiveQueue::new(4);
    assert_eq!(ready_ids(&q.insert(outcome(0, true))), vec![0]);
    assert!(q.insert(outcome(0, true)).is_empty());
    assert!(ready_ids(&q.insert(outcome(1, true))).is_empty());
    assert_eq!(q.len(), 2);
}
