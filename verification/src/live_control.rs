//! The decisions of live interpretation: entering and leaving a session,
//! accepting only the current session's outcomes, and the circuit breaker
//! that ends a session after repeated failures.
use crate::error::VerbalixError;
use crate::live::{LiveSession, LiveSessionId, LiveState, SegmentId, StageDurations};
use crate::ports::VirtualMicOutputPort;
use vstd::prelude::*;

verus! {

/// Consecutive failed segments that end a session.
pub const CIRCUIT_BREAKER_THRESHOLD: u32 = 3;

/// The languages a live session interprets into, by their two-letter code.
pub open spec fn known_language(a: char, b: char) -> bool {
    ||| a == 'e' && b == 'n'
    ||| a == 'p' && b == 't'
    ||| a == 'e' && b == 's'
    ||| a == 'f' && b == 'r'
    ||| a == 'd' && b == 'e'
    ||| a == 'i' && b == 't'
    ||| a == 'j' && b == 'a'
    ||| a == 'z' && b == 'h'
    ||| a == 'k' && b == 'o'
}

pub open spec fn is_upper_ascii(c: char) -> bool {
    'A' <= c && c <= 'Z'
}

/// A target language tag a live session accepts: a known two-letter code,
/// alone or followed by `-` and a two-letter upper-case region.
pub open spec fn supported_target_language(tag: Seq<char>) -> bool {
    &&& tag.len() == 2 || (tag.len() == 5 && tag[2] == '-' && is_upper_ascii(tag[3])
        && is_upper_ascii(tag[4]))
    &&& known_language(tag[0], tag[1])
}

fn known_language_code(a: char, b: char) -> (r: bool)
    ensures
        r == known_language(a, b),
{
    (a == 'e' && b == 'n') || (a == 'p' && b == 't') || (a == 'e' && b == 's') || (a == 'f' && b
        == 'r') || (a == 'd' && b == 'e') || (a == 'i' && b == 't') || (a == 'j' && b == 'a') || (a
        == 'z' && b == 'h') || (a == 'k' && b == 'o')
}

fn upper_ascii(c: char) -> (r: bool)
    ensures
        r == is_upper_ascii(c),
{
    'A' <= c && c <= 'Z'
}

/// Checks the language a live session is asked to interpret into: the tag
/// itself when it is supported, else `TargetLanguageUnsupported`.
pub fn target_language(tag: &str) -> (r: Result<String, VerbalixError>)
    ensures
        supported_target_language(tag@) ==> (r matches Ok(s) && s@ == tag@),
        !supported_target_language(tag@) ==> r == Err::<String, VerbalixError>(
            VerbalixError::TargetLanguageUnsupported,
        ),
{
    let v = crate::text::chars_of(tag);
    let shape = v.len() == 2 || (v.len() == 5 && v[2] == '-' && upper_ascii(v[3]) && upper_ascii(
        v[4],
    ));
    if shape && known_language_code(v[0], v[1]) {
        Ok(tag.to_owned())
    } else {
        Err(VerbalixError::TargetLanguageUnsupported)
    }
}

/// What the interface is told about the live session.
#[derive(Debug)]
pub struct LiveEventPayload {
    pub status: String,
    pub stage_ms: Option<StageDurations>,
    pub segment_id: Option<u64>,
    pub detected_language: Option<String>,
    pub target_language: Option<String>,
    pub first_audio_ms: Option<u64>,
}

impl LiveEventPayload {
    /// A payload that carries only a status.
    pub fn status_only(status: &str) -> (p: Self)
        ensures
            p.status@ == status@,
            p.stage_ms is None,
            p.segment_id is None,
            p.detected_language is None,
            p.target_language is None,
            p.first_audio_ms is None,
    {
        LiveEventPayload {
            status: status.to_owned(),
            stage_ms: None,
            segment_id: None,
            detected_language: None,
            target_language: None,
            first_audio_ms: None,
        }
    }
}

/// What the caller must do after a worker reported a failed segment.
#[derive(Clone, Copy, Debug, PartialEq, Eq, Structural)]
pub enum FailureAction {
    /// The outcome was not the current session's; nothing to do.
    Ignore,
    /// The session keeps going, recovering.
    Continue,
    /// The breaker tripped: stop capture, reset the queue, report an error.
    Trip,
}

/// The state of the live session.
pub struct CoordinatorState {
    live_state: LiveState,
    session: Option<LiveSession>,
    circuit_failures: u32,
}

impl CoordinatorState {
    pub closed spec fn live_view(&self) -> LiveState {
        self.live_state
    }

    pub closed spec fn failures_view(&self) -> nat {
        self.circuit_failures as nat
    }

    pub closed spec fn session_view(&self) -> Option<LiveSession> {
        self.session
    }

    /// Whether an outcome belongs to the current session.
    pub open spec fn accepts_spec(&self, session_id: LiveSessionId, segment_id: SegmentId) -> bool {
        self.session_view() matches Some(s) && s.accepts_spec(session_id, segment_id)
    }

    /// The breaker counts at most its threshold, and only a session without
    /// a current session can have reached it.
    pub open spec fn well_formed(&self) -> bool {
        self.failures_view() < CIRCUIT_BREAKER_THRESHOLD || (self.failures_view()
            == CIRCUIT_BREAKER_THRESHOLD && self.session_view() is None)
    }

    pub fn new() -> (c: Self)
        ensures
            c.well_formed(),
            c.live_view() == LiveState::Idle,
            c.session_view() is None,
            c.failures_view() == 0,
    {
        CoordinatorState { live_state: LiveState::Idle, session: None, circuit_failures: 0 }
    }

    pub fn live_state(&self) -> (s: LiveState)
        ensures
            s == self.live_view(),
    {
        self.live_state
    }

    pub fn active_session_id(&self) -> (id: Option<LiveSessionId>)
        ensures
            id == (match self.session_view() {
                Some(s) => Some(s.id_view()),
                None => None,
            }),
    {
        match &self.session {
            Some(s) => Some(s.id()),
            None => None,
        }
    }

    pub fn accepts(&self, session_id: LiveSessionId, segment_id: SegmentId) -> (b: bool)
        ensures
            b == self.accepts_spec(session_id, segment_id),
    {
        match &self.session {
            Some(s) => s.accepts(session_id, segment_id),
            None => false,
        }
    }

    /// Starts preparing a new session, unless one is on air.
    pub fn begin_enter(&mut self, session: LiveSession) -> (r: Result<(), VerbalixError>)
        requires
            old(self).well_formed(),
        ensures
            final(self).well_formed(),
            old(self).live_view() == LiveState::OnAir ==> r == Err::<(), VerbalixError>(
                VerbalixError::LiveSessionInactive,
            ) && final(self).live_view() == old(self).live_view() && final(self).session_view()
                == old(self).session_view() && final(self).failures_view() == old(self).failures_view(),
            old(self).live_view() != LiveState::OnAir ==> r is Ok && final(self).live_view()
                == LiveState::Preparing && final(self).session_view() == Some(session)
                && final(self).failures_view() == 0,
    {
        if self.live_state == LiveState::OnAir {
            return Err(VerbalixError::LiveSessionInactive);
        }
        self.live_state = LiveState::Preparing;
        self.session = Some(session);
        self.circuit_failures = 0;
        Ok(())
    }

    /// Capture could not start: back to idle without a session.
    pub fn capture_failed(&mut self)
        requires
            old(self).well_formed(),
        ensures
            final(self).well_formed(),
            final(self).live_view() == LiveState::Idle,
            final(self).session_view() is None,
            final(self).failures_view() == old(self).failures_view(),
    {
        self.live_state = LiveState::Idle;
        self.session = None;
    }

    /// Capture and the worker run: the session is on air.
    pub fn went_on_air(&mut self)
        requires
            old(self).well_formed(),
        ensures
            final(self).well_formed(),
            final(self).live_view() == LiveState::OnAir,
            final(self).session_view() == old(self).session_view(),
            final(self).failures_view() == old(self).failures_view(),
    {
        self.live_state = LiveState::OnAir;
    }

    /// The capture stream broke: the session fails.
    pub fn stream_failed(&mut self)
        requires
            old(self).well_formed(),
        ensures
            final(self).well_formed(),
            final(self).live_view() == LiveState::Failed,
            final(self).session_view() is None,
            final(self).failures_view() == old(self).failures_view(),
    {
        self.live_state = LiveState::Failed;
        self.session = None;
    }

    /// Starts leaving: returns false (changing nothing) when idle or failed;
    /// otherwise the session ends and the state is `Stopping`.
    pub fn begin_leave(&mut self) -> (leaving: bool)
        requires
            old(self).well_formed(),
        ensures
            final(self).well_formed(),
            leaving == !(old(self).live_view() == LiveState::Idle || old(self).live_view()
                == LiveState::Failed),
            leaving ==> final(self).live_view() == LiveState::Stopping && final(self).session_view() is None,
            !leaving ==> final(self).live_view() == old(self).live_view() && final(self).session_view()
                == old(self).session_view(),
            final(self).failures_view() == old(self).failures_view(),
    {
        if self.live_state == LiveState::Idle || self.live_state == LiveState::Failed {
            return false;
        }
        self.live_state = LiveState::Stopping;
        self.session = None;
        true
    }

    /// Leaving completed.
    pub fn finish_leave(&mut self)
        requires
            old(self).well_formed(),
        ensures
            final(self).well_formed(),
            final(self).live_view() == LiveState::Idle,
            final(self).session_view() == old(self).session_view(),
    {
        self.live_state = LiveState::Idle;
    }

    /// The target language of the current session.
    pub fn target_language(&self) -> (l: Option<String>)
        ensures
            match self.session_view() {
                Some(s) => l matches Some(t) && t@ == s.language_view(),
                None => l is None,
            },
    {
        match &self.session {
            Some(s) => Some(s.target_language().to_owned()),
            None => None,
        }
    }

    /// Whether the current session can number one more segment.
    pub fn can_number_segment(&self) -> (b: bool)
        ensures
            b == (self.session_view() matches Some(s) ==> s.issued() < u64::MAX),
    {
        match &self.session {
            Some(s) => s.issued_count() < u64::MAX,
            None => true,
        }
    }

    /// A speech segment closed: the current session numbers it. Without a
    /// session nothing is numbered.
    pub fn number_segment(&mut self) -> (r: Option<(LiveSessionId, SegmentId)>)
        requires
            old(self).well_formed(),
            old(self).session_view() matches Some(s) ==> s.issued() < u64::MAX,
        ensures
            final(self).well_formed(),
            final(self).live_view() == old(self).live_view(),
            final(self).failures_view() == old(self).failures_view(),
            match old(self).session_view() {
                Some(s) => r == Some((s.id_view(), SegmentId(s.issued() as u64))) && (final(self).session_view() matches Some(t) && t.id_view() == s.id_view() && t.issued() == s.issued() + 1 && t.language_view() == s.language_view()),
                None => r is None && final(self).session_view() is None,
            },
    {
        match &mut self.session {
            Some(session) => {
                let sid = session.id();
                let seg = session.advance();
                Some((sid, seg))
            },
            None => None,
        }
    }

    /// How a failed segment reported for (`session_id`, `segment_id`) turns
    /// `before` into `after`: ignored when not the current session's, else
    /// one more consecutive failure, recovering below the threshold and
    /// failing without a session at it.
    pub open spec fn failed_step(
        before: CoordinatorState,
        after: CoordinatorState,
        session_id: LiveSessionId,
        segment_id: SegmentId,
    ) -> bool {
        if !before.accepts_spec(session_id, segment_id) {
            &&& after.live_view() == before.live_view()
            &&& after.session_view() == before.session_view()
            &&& after.failures_view() == before.failures_view()
        } else {
            &&& after.failures_view() == before.failures_view() + 1
            &&& before.failures_view() + 1 < CIRCUIT_BREAKER_THRESHOLD ==> after.live_view()
                == LiveState::Recovering && after.session_view() == before.session_view()
            &&& before.failures_view() + 1 >= CIRCUIT_BREAKER_THRESHOLD ==> after.live_view()
                == LiveState::Failed && after.session_view() is None
        }
    }

    /// A worker reported a failed segment. An outcome of another session is
    /// ignored. Otherwise one more consecutive failure is counted: below
    /// the threshold the session recovers; at the threshold the session
    /// fails and ends.
    pub fn on_segment_failed(&mut self, session_id: LiveSessionId, segment_id: SegmentId) -> (action:
        FailureAction)
        requires
            old(self).well_formed(),
        ensures
            final(self).well_formed(),
            !old(self).accepts_spec(session_id, segment_id) ==> action == FailureAction::Ignore
                && final(self).live_view() == old(self).live_view() && final(self).session_view()
                == old(self).session_view() && final(self).failures_view() == old(self).failures_view(),
            old(self).accepts_spec(session_id, segment_id) && old(self).failures_view() + 1
                < CIRCUIT_BREAKER_THRESHOLD ==> action == FailureAction::Continue
                && final(self).live_view() == LiveState::Recovering && final(self).failures_view()
                == old(self).failures_view() + 1 && final(self).session_view() == old(self).session_view(),
            old(self).accepts_spec(session_id, segment_id) && old(self).failures_view() + 1
                >= CIRCUIT_BREAKER_THRESHOLD ==> action == FailureAction::Trip
                && final(self).live_view() == LiveState::Failed && final(self).session_view() is None
                && final(self).failures_view() == old(self).failures_view() + 1,
            Self::failed_step(*old(self), *final(self), session_id, segment_id),
    {
        if !self.accepts(session_id, segment_id) {
            return FailureAction::Ignore;
        }
        let failed = self.circuit_failures + 1;
        if failed < CIRCUIT_BREAKER_THRESHOLD {
            self.circuit_failures = failed;
            self.live_state = LiveState::Recovering;
            FailureAction::Continue
        } else {
            self.circuit_failures = failed;
            self.live_state = LiveState::Failed;
            self.session = None;
            FailureAction::Trip
        }
    }

    /// A worker delivered a segment: for the current session the breaker is
    /// reset and a recovering session is back on air.
    pub fn on_segment_ready(&mut self, session_id: LiveSessionId, segment_id: SegmentId)
        requires
            old(self).well_formed(),
        ensures
            final(self).well_formed(),
            final(self).session_view() == old(self).session_view(),
            old(self).accepts_spec(session_id, segment_id) ==> final(self).failures_view() == 0
                && final(self).live_view() == (if old(self).live_view() == LiveState::Recovering {
                LiveState::OnAir
            } else {
                old(self).live_view()
            }),
            !old(self).accepts_spec(session_id, segment_id) ==> final(self).failures_view()
                == old(self).failures_view() && final(self).live_view() == old(self).live_view(),
    {
        if self.accepts(session_id, segment_id) {
            self.circuit_failures = 0;
            if self.live_state == LiveState::Recovering {
                self.live_state = LiveState::OnAir;
            }
        }
    }
}

/// The circuit breaker: from a session with no failure counted, the
/// current session's failed segments reported one after another (no
/// delivered segment between them) keep it recovering with the count of
/// failures so far, until the threshold-th ends it as failed without a
/// session; no further failure can then be the current session's.
pub proof fn lemma_breaker_trips_at_threshold(
    states: Seq<CoordinatorState>,
    events: Seq<(LiveSessionId, SegmentId)>,
)
    requires
        states.len() == events.len() + 1,
        states[0].failures_view() == 0,
        forall|i: int|
            0 <= i < events.len() ==> CoordinatorState::failed_step(
                states[i],
                states[i + 1],
                #[trigger] events[i].0,
                events[i].1,
            ) && states[i].accepts_spec(events[i].0, events[i].1),
    ensures
        events.len() <= CIRCUIT_BREAKER_THRESHOLD,
        forall|k: int| 0 <= k < states.len() ==> #[trigger] states[k].failures_view() == k,
        forall|k: int|
            0 < k < states.len() && k < CIRCUIT_BREAKER_THRESHOLD ==> #[trigger] states[k].live_view()
                == LiveState::Recovering && states[k].session_view() == states[0].session_view(),
        events.len() == CIRCUIT_BREAKER_THRESHOLD ==> states[events.len() as int].live_view()
            == LiveState::Failed && states[events.len() as int].session_view() is None,
{
    breaker_prefix(states, events, events.len());
    assert forall|k: int| 0 <= k < states.len() implies #[trigger] states[k].failures_view() == k by {
        breaker_prefix(states, events, k as nat);
    }
    assert forall|k: int| 0 < k < states.len() && k < CIRCUIT_BREAKER_THRESHOLD implies #[trigger] states[k].live_view()
        == LiveState::Recovering && states[k].session_view() == states[0].session_view() by {
        breaker_prefix(states, events, k as nat);
    }
}

proof fn breaker_prefix(states: Seq<CoordinatorState>, events: Seq<(LiveSessionId, SegmentId)>, k: nat)
    requires
        states.len() == events.len() + 1,
        states[0].failures_view() == 0,
        forall|i: int|
            0 <= i < events.len() ==> CoordinatorState::failed_step(
                states[i],
                states[i + 1],
                #[trigger] events[i].0,
                events[i].1,
            ) && states[i].accepts_spec(events[i].0, events[i].1),
        k <= events.len(),
    ensures
        states[k as int].failures_view() == k,
        k <= CIRCUIT_BREAKER_THRESHOLD,
        k < CIRCUIT_BREAKER_THRESHOLD ==> states[k as int].session_view() == states[0].session_view(),
        0 < k < CIRCUIT_BREAKER_THRESHOLD ==> states[k as int].live_view() == LiveState::Recovering,
        k == CIRCUIT_BREAKER_THRESHOLD ==> states[k as int].live_view() == LiveState::Failed
            && states[k as int].session_view() is None,
    decreases k,
{
    if k > 0 {
        breaker_prefix(states, events, (k - 1) as nat);
        let j = k - 1;
        let e = events[j];
        assert(CoordinatorState::failed_step(states[j], states[j + 1], e.0, e.1)
            && states[j].accepts_spec(e.0, e.1));
    }
}

/// Whether a new session speaks into the virtual microphone: only when the
/// user asked for it and the device opens. When the device does not open,
/// speech stays on the speakers and the interface is told with a
/// `virtual-mic-fallback` status.
pub fn resolve_route<V: VirtualMicOutputPort>(route_to_virtual_mic: bool, virtual_mic: &V) -> (r: (
    bool,
    Option<LiveEventPayload>,
))
    ensures
        !route_to_virtual_mic ==> !r.0 && r.1 is None,
        r.0 ==> r.1 is None,
        route_to_virtual_mic && !r.0 ==> (r.1 matches Some(p) && p.status@
            == "virtual-mic-fallback"@ && p.stage_ms is None && p.segment_id is None
            && p.detected_language is None && p.target_language is None && p.first_audio_ms is None),
{
    if !route_to_virtual_mic {
        return (false, None);
    }
    match virtual_mic.open() {
        Ok(()) => (true, None),
        Err(_) => (false, Some(LiveEventPayload::status_only("virtual-mic-fallback"))),
    }
}

} // verus!
