//! Identifiers, outcomes and session bookkeeping of live interpretation.
use crate::error::VerbalixError;
use vstd::prelude::*;

verus! {

/// The position of a speech segment within a live session.
#[derive(Clone, Copy, Debug, PartialEq, Eq, Structural)]
pub struct SegmentId(pub u64);

/// The identity of one live session.
#[derive(Clone, Copy, Debug, PartialEq, Eq, Structural)]
pub struct LiveSessionId(pub u128);

impl SegmentId {
    /// The segment after this one.
    pub fn next(self) -> (n: SegmentId)
        requires
            self.0 < u64::MAX,
        ensures
            n.0 == self.0 + 1,
    {
        SegmentId(self.0 + 1)
    }
}

/// Milliseconds spent in each stage of the backend pipeline.
#[derive(Clone, Copy, Debug, PartialEq, Eq, Structural)]
pub struct StageDurations {
    pub stt: u32,
    pub translate: u32,
    pub tts: u32,
}

/// A successfully interpreted segment.
#[derive(Debug)]
pub struct SegmentResult {
    pub audio_base64: String,
    pub detected_language: String,
    pub stage_ms: StageDurations,
}

/// What the backend answered for one segment of one session.
#[derive(Debug)]
pub struct InterpretOutcome {
    pub session_id: LiveSessionId,
    pub segment_id: SegmentId,
    pub result: Result<SegmentResult, VerbalixError>,
}

/// The life cycle of a live session.
#[derive(Clone, Copy, Debug, PartialEq, Eq, Structural)]
pub enum LiveState {
    Idle,
    Preparing,
    OnAir,
    Recovering,
    Stopping,
    Failed,
}

/// The live status reported to the interface for a state.
pub open spec fn live_status_spec(state: LiveState) -> &'static str {
    match state {
        LiveState::Idle => "idle",
        LiveState::Preparing => "listening",
        LiveState::OnAir => "listening",
        LiveState::Recovering => "processing",
        LiveState::Stopping => "idle",
        LiveState::Failed => "error",
    }
}

/// The status label the interface shows for a live state.
pub fn live_status_label(state: LiveState) -> (label: &'static str)
    ensures
        label == live_status_spec(state),
{
    match state {
        LiveState::Idle => "idle",
        LiveState::Preparing => "listening",
        LiveState::OnAir => "listening",
        LiveState::Recovering => "processing",
        LiveState::Stopping => "idle",
        LiveState::Failed => "error",
    }
}

/// One live session: its identity, its target language and the next segment
/// it will number.
pub struct LiveSession {
    id: LiveSessionId,
    target_language: String,
    next_segment: u64,
}

impl LiveSession {
    pub fn new(id: LiveSessionId, target_language: String) -> (s: Self)
        ensures
            s.id_view() == id,
            s.language_view() == target_language@,
            s.issued() == 0,
    {
        LiveSession { id, target_language, next_segment: 0 }
    }

    pub closed spec fn id_view(&self) -> LiveSessionId {
        self.id
    }

    pub closed spec fn language_view(&self) -> Seq<char> {
        self.target_language@
    }

    pub fn id(&self) -> (id: LiveSessionId)
        ensures
            id == self.id_view(),
    {
        self.id
    }

    pub fn target_language(&self) -> (lang: &str)
        ensures
            lang@ == self.language_view(),
    {
        self.target_language.as_str()
    }

    /// How many segments this session has numbered.
    pub closed spec fn issued(&self) -> nat {
        self.next_segment as nat
    }

    /// Whether an outcome belongs to this session: same session and a
    /// segment this session has numbered.
    pub open spec fn accepts_spec(&self, session_id: LiveSessionId, segment_id: SegmentId) -> bool {
        session_id == self.id_view() && (segment_id.0 as nat) < self.issued()
    }

    /// How many segments the session numbered.
    pub fn issued_count(&self) -> (n: u64)
        ensures
            n == self.issued(),
    {
        self.next_segment
    }

    pub fn accepts(&self, session_id: LiveSessionId, segment_id: SegmentId) -> (b: bool)
        ensures
            b == self.accepts_spec(session_id, segment_id),
    {
        session_id == self.id && segment_id.0 < self.next_segment
    }

    /// Numbers the next segment.
    pub fn advance(&mut self) -> (seg: SegmentId)
        requires
            old(self).issued() < u64::MAX,
        ensures
            seg.0 == old(self).issued(),
            final(self).issued() == old(self).issued() + 1,
            final(self).id_view() == old(self).id_view(),
            final(self).language_view() == old(self).language_view(),
    {
        let seg = SegmentId(self.next_segment);
        self.next_segment = self.next_segment + 1;
        seg
    }
}

} // verus!
