use std::sync::mpsc;
use verbalix::error::VerbalixError;
use verbalix::live::{InterpretOutcome, LiveSessionId, SegmentId, SegmentResult, StageDurations};
use verbalix::live_queue::{LiveQueue, QueueEvent};
use verbalix::live_worker::{
    fallback_audio, plan_queue_event, stop_events, LiveWorker, SegmentStep, WorkerCommand,
    WorkerEvent, COMMAND_CAPACITY,
};

fn stage() -> StageDurations {
    StageDurations {
        stt: 10,
        translate: 20,
        tts: 30,
    }
}

fn ok_outcome(seg: u64, audio: &str) -> InterpretOutcome {
    InterpretOutcome {
        session_id: LiveSessionId(9),
        segment_id: SegmentId(seg),
        result: Ok(SegmentResult {
            audio_base64: audio.to_owned(),
            detected_language: "pt".to_owned(),
            stage_ms: stage(),
        }),
    }
}

#[test]
fn accepted_success_plays_with_decoded_fallback_audio() {
    let step = plan_queue_event(QueueEvent::Ready(ok_outcome(3, "AQID")), true);
    match step {
        SegmentStep::Play {
            segment_id,
            session_id,
            stage_ms,
            detected_language,
            fallback_wav,
        } => {
            assert_eq!(segment_id, SegmentId(3));
            assert_eq!(session_id, LiveSessionId(9));
            assert_eq!(stage_ms, stage());
            assert_eq!(detected_language, "pt");
            assert_eq!(fallback_wav, Some(vec![1u8, 2, 3]));
        }
        other => panic!("unexpected step {other:?}"),
    }
}

#[test]
fn empty_or_invalid_audio_has_no_fallback() {
    assert_eq!(fallback_audio(""), None);
    assert_eq!(fallback_audio("not base64!"), None);
    assert_eq!(fallback_audio("aGk="), Some(b"hi".to_vec()));
    let step = plan_queue_event(QueueEvent::Ready(ok_outcome(1, "")), true);
    assert!(matches!(step, SegmentStep::Play { fallback_wav: None, .. }));
}

#[test]
fn outcome_of_another_session_fails_even_when_it_succeeded() {
    let step = plan_queue_event(QueueEvent::Ready(ok_outcome(4, "AQID")), false);
    assert!(matches!(
        step,
        SegmentStep::Fail {
            segment_id: SegmentId(4),
            session_id: LiveSessionId(9)
        }
    ));
}

#[test]
fn failed_outcome_fails_and_dropped_outcome_drops() {
    let failed = InterpretOutcome {
        session_id: LiveSessionId(2),
        segment_id: SegmentId(5),
        result: Err(VerbalixError::SttFailed),
    };
    assert!(matches!(
        plan_queue_event(QueueEvent::Ready(failed), true),
        SegmentStep::Fail {
            segment_id: SegmentId(5),
            session_id: LiveSessionId(2)
        }
    ));
    assert!(matches!(
        plan_queue_event(QueueEvent::Dropped { segment_id: SegmentId(8) }, true),
        SegmentStep::Drop {
            segment_id: SegmentId(8)
        }
    ));
}

#[test]
fn stopping_drops_every_waiting_outcome_in_order() {
    let mut queue = LiveQueue::new(8);
    assert!(queue.insert(ok_outcome(3, "")).is_empty());
    assert!(queue.insert(ok_outcome(1, "")).is_empty());
    let events = stop_events(&mut queue);
    assert_eq!(queue.len(), 0);
    let dropped: Vec<u64> = events
        .iter()
        .map(|e| match e {
            WorkerEvent::Dropped { segment_id } => segment_id.0,
            other => panic!("unexpected event {other:?}"),
        })
        .collect();
    assert_eq!(dropped, vec![1, 3]);
}

#[test]
fn worker_handle_delivers_commands_and_survives_a_gone_worker() {
    let (tx, rx) = mpsc::sync_channel(COMMAND_CAPACITY);
    let worker = LiveWorker::with_sender(tx);
    worker.dispatch(WorkerCommand::Dispatch {
        session_id: LiveSessionId(1),
        segment_id: SegmentId(0),
        wav_bytes: vec![1, 2],
        target_language: "en".to_owned(),
        token: "t".to_owned(),
    });
    worker.stop();
    assert!(matches!(
        rx.try_recv(),
        Ok(WorkerCommand::Dispatch {
            segment_id: SegmentId(0),
            ..
        })
    ));
    assert!(matches!(rx.try_recv(), Ok(WorkerCommand::Stop)));
    drop(rx);
    worker.stop();
}

#[test]
fn fallback_audio_takes_only_canonical_base64() {
    assert_eq!(fallback_audio("QQ=="), Some(vec![0x41]));
    assert_eq!(fallback_audio("TWFu"), Some(b"Man".to_vec()));
    assert_eq!(fallback_audio("QR=="), None);
    assert_eq!(fallback_audio("QQ"), None);
    assert_eq!(fallback_audio("Q Q=="), None);
}
