//! The live worker: the commands it takes, the events it reports, and what it
//! does with each outcome the reordering queue hands on. The thread that runs
//! the worker and the calls to the backend belong to the caller.
use crate::live::{InterpretOutcome, LiveSessionId, SegmentId, StageDurations};
use crate::live_queue::{LiveQueue, QueueEvent};
use crate::voice_stream::{base64_decoded, base64_encoded, lemma_base64_injective};
use base64::Engine;
use vstd::prelude::*;

verus! {

/// Interpretations the worker runs at once.
pub const MAX_IN_FLIGHT: usize = 2;

/// Commands that may wait for the worker.
pub const COMMAND_CAPACITY: usize = 32;

/// What the live session asks of the worker.
#[derive(Debug)]
pub enum WorkerCommand {
    /// Interpret one closed speech segment.
    Dispatch {
        session_id: LiveSessionId,
        segment_id: SegmentId,
        wav_bytes: Vec<u8>,
        target_language: String,
        token: String,
    },
    /// Give up every waiting outcome and end.
    Stop,
}

/// What the worker reports about a segment.
#[derive(Debug)]
pub enum WorkerEvent {
    Ready {
        segment_id: SegmentId,
        session_id: LiveSessionId,
        stage_ms: StageDurations,
        detected_language: String,
        target_language: Option<String>,
        first_audio_ms: Option<u64>,
    },
    Dropped { segment_id: SegmentId },
    Failed { segment_id: SegmentId, session_id: LiveSessionId },
}

#[verifier::external_type_specification]
#[verifier::external_body]
#[verifier::reject_recursive_types(T)]
pub struct ExSyncSender<T>(std::sync::mpsc::SyncSender<T>);

/// Offers a command to the worker without waiting
/// (`std::sync::mpsc::SyncSender::try_send`); a full or disconnected channel
/// refuses it. Whether it was taken depends on the worker thread, so nothing
/// is stated of the answer.
#[verifier::external_body]
fn offer_command(tx: &std::sync::mpsc::SyncSender<WorkerCommand>, cmd: WorkerCommand) -> bool {
    tx.try_send(cmd).is_ok()
}

/// The handle through which a live session commands its worker.
pub struct LiveWorker {
    cmd_tx: std::sync::mpsc::SyncSender<WorkerCommand>,
}

impl LiveWorker {
    /// The channel through which this handle commands its worker.
    pub closed spec fn sender_view(&self) -> std::sync::mpsc::SyncSender<WorkerCommand> {
        self.cmd_tx
    }

    /// A handle that commands the worker draining the other end of `cmd_tx`.
    pub fn with_sender(cmd_tx: std::sync::mpsc::SyncSender<WorkerCommand>) -> (w: Self)
        ensures
            w.sender_view() == cmd_tx,
    {
        LiveWorker { cmd_tx }
    }

    /// Hands a command to the worker; a command the channel refuses is lost.
    pub fn dispatch(&self, cmd: WorkerCommand) {
        let _ = offer_command(&self.cmd_tx, cmd);
    }

    /// Asks the worker to stop.
    pub fn stop(&self) {
        let _ = offer_command(&self.cmd_tx, WorkerCommand::Stop);
    }
}

/// Decodes standard padded base64
/// (`base64::engine::general_purpose::STANDARD.decode`). That decoder takes
/// exactly the canonical padded text of some bytes: the bytes it returns
/// encode to the text, and text that is no such encoding is refused.
#[verifier::external_body]
fn decode_base64(text: &str) -> (r: Option<Vec<u8>>)
    ensures
        match r {
            Some(v) => base64_encoded(v@) == text@,
            None => forall|b: Seq<u8>| base64_encoded(b) != text@,
        },
{
    base64::engine::general_purpose::STANDARD.decode(text).ok()
}

pub open spec fn bytes_view(o: Option<Vec<u8>>) -> Option<Seq<u8>> {
    match o {
        Some(v) => Some(v@),
        None => None,
    }
}

/// The audio a segment brings along for when no stream is pending: none when
/// the backend sent none, else its base64 decoding.
pub open spec fn fallback_audio_spec(audio_base64: Seq<char>) -> Option<Seq<u8>> {
    if audio_base64.len() == 0 {
        None
    } else {
        base64_decoded(audio_base64)
    }
}

/// The WAV bytes carried inline by a segment result, decoded.
pub fn fallback_audio(audio_base64: &str) -> (r: Option<Vec<u8>>)
    ensures
        bytes_view(r) == fallback_audio_spec(audio_base64@),
{
    if audio_base64.is_empty() {
        None
    } else {
        let r = decode_base64(audio_base64);
        proof {
            if r is Some {
                let v = r->0;
                let c = choose|b: Seq<u8>| base64_encoded(b) == audio_base64@;
                assert(base64_encoded(v@) == audio_base64@);
                lemma_base64_injective(c, v@);
            }
        }
        r
    }
}

/// What to do with one event of the reordering queue.
#[derive(Debug)]
pub enum SegmentStep {
    /// Cancel the segment's pending stream, if any, and report it failed.
    Fail { segment_id: SegmentId, session_id: LiveSessionId },
    /// Play the segment (its pending stream when there is one, else
    /// `fallback_wav` when there is some), then report it ready.
    Play {
        segment_id: SegmentId,
        session_id: LiveSessionId,
        stage_ms: StageDurations,
        detected_language: String,
        fallback_wav: Option<Vec<u8>>,
    },
    /// Cancel the segment's pending stream, if any, and report it dropped.
    Drop { segment_id: SegmentId },
}

/// Decides what an event of the queue leads to. `accepted` says whether the
/// outcome belongs to the session that is live now: an outcome of another
/// session fails, whatever it carries.
pub fn plan_queue_event(event: QueueEvent, accepted: bool) -> (step: SegmentStep)
    ensures
        match event {
            QueueEvent::Ready(o) => if accepted && o.result is Ok {
                let r = o.result->Ok_0;
                step matches SegmentStep::Play {
                    segment_id,
                    session_id,
                    stage_ms,
                    detected_language,
                    fallback_wav,
                } && segment_id == o.segment_id && session_id == o.session_id && stage_ms
                    == r.stage_ms && detected_language@ == r.detected_language@ && bytes_view(
                    fallback_wav,
                ) == fallback_audio_spec(r.audio_base64@)
            } else {
                step == (SegmentStep::Fail { segment_id: o.segment_id, session_id: o.session_id })
            },
            QueueEvent::Dropped { segment_id } => step == (SegmentStep::Drop { segment_id }),
        },
{
    match event {
        QueueEvent::Ready(o) => {
            let segment_id = o.segment_id;
            let session_id = o.session_id;
            if !accepted {
                return SegmentStep::Fail { segment_id, session_id };
            }
            match o.result {
                Ok(r) => {
                    let fallback_wav = fallback_audio(r.audio_base64.as_str());
                    SegmentStep::Play {
                        segment_id,
                        session_id,
                        stage_ms: r.stage_ms,
                        detected_language: r.detected_language,
                        fallback_wav,
                    }
                },
                Err(_) => SegmentStep::Fail { segment_id, session_id },
            }
        },
        QueueEvent::Dropped { segment_id } => SegmentStep::Drop { segment_id },
    }
}

/// What stopping the worker reports: every waiting outcome, in segment
/// order, is given up and reported dropped.
pub fn stop_events(queue: &mut LiveQueue) -> (events: Vec<WorkerEvent>)
    requires
        old(queue).well_formed(),
    ensures
        final(queue).well_formed(),
        final(queue).pending_view().len() == 0,
        final(queue).next_view() == old(queue).next_view(),
        final(queue).capacity_view() == old(queue).capacity_view(),
        events.len() == old(queue).pending_view().len(),
        forall|i: int|
            0 <= i < events.len() ==> #[trigger] events@[i] == (WorkerEvent::Dropped {
                segment_id: old(queue).pending_view()[i].segment_id,
            }),
{
    let drained = queue.drain_all();
    let mut events: Vec<WorkerEvent> = Vec::new();
    let mut i: usize = 0;
    while i < drained.len()
        invariant
            i <= drained.len(),
            events.len() == i,
            forall|k: int|
                0 <= k < i ==> #[trigger] events@[k] == (WorkerEvent::Dropped {
                    segment_id: drained@[k].segment_id,
                }),
        decreases drained.len() - i,
    {
        events.push(WorkerEvent::Dropped { segment_id: drained[i].segment_id });
        i = i + 1;
    }
    events
}

} // verus!
