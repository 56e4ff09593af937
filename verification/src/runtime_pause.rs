//! The single gate of every detection entry point: a user pause, and the
//! suppression of detection while an action of the application is running
//! and for a short grace period after it.
use vstd::prelude::*;

verus! {

/// How long detection stays suppressed after the last action ended.
pub const GRACE_MS: u64 = 400;

/// Proof that an action was begun; it is handed back to end the action.
pub struct ActionGuard {
    _private: (),
}

/// What happens to the bookkeeping of actions: one begins, or one ends at
/// a time in milliseconds.
#[derive(Clone, Copy, Debug, PartialEq, Eq, Structural)]
pub enum PauseEvent {
    Begin,
    End(u64),
}

/// How `event` turns `before` into `after`: a begun action is counted; an
/// ended one is uncounted and restarts the grace period from its time.
pub open spec fn pause_step(before: RuntimePause, after: RuntimePause, event: PauseEvent) -> bool {
    &&& after.paused_view() == before.paused_view()
    &&& match event {
        PauseEvent::Begin => after.in_flight_view() == before.in_flight_view() + 1
            && after.deadline_view() == before.deadline_view(),
        PauseEvent::End(t) => before.in_flight_view() > 0 && after.in_flight_view()
            == before.in_flight_view() - 1 && after.deadline_view() == t + GRACE_MS,
    }
}

/// How many actions `events` begins.
pub open spec fn begun(events: Seq<PauseEvent>) -> nat
    decreases events.len(),
{
    if events.len() == 0 {
        0
    } else {
        begun(events.drop_last()) + if events.last() is Begin {
            1nat
        } else {
            0nat
        }
    }
}

/// How many actions `events` ends.
pub open spec fn ended(events: Seq<PauseEvent>) -> nat
    decreases events.len(),
{
    if events.len() == 0 {
        0
    } else {
        ended(events.drop_last()) + if events.last() is End {
            1nat
        } else {
            0nat
        }
    }
}

/// The time of the last end among `events`, if any.
pub open spec fn last_end(events: Seq<PauseEvent>) -> Option<u64>
    decreases events.len(),
{
    if events.len() == 0 {
        None
    } else {
        match events.last() {
            PauseEvent::End(t) => Some(t),
            PauseEvent::Begin => last_end(events.drop_last()),
        }
    }
}

/// The pause switch and the in-flight action bookkeeping.
pub struct RuntimePause {
    paused: bool,
    in_flight: u64,
    grace_deadline_ms: u64,
}

/// The current time in milliseconds since the Unix epoch (the system clock;
/// 0 when it reads before the epoch). Nothing is stated of the value.
#[verifier::external_body]
fn now_ms() -> u64 {
    std::time::SystemTime::now().duration_since(std::time::UNIX_EPOCH).map(|d| d.as_millis()).unwrap_or(
        0,
    ) as u64
}

impl RuntimePause {
    /// Not paused, no action in flight, no grace period.
    pub fn new() -> (p: Self)
        ensures
            !p.paused_view(),
            p.in_flight_view() == 0,
            p.deadline_view() == 0,
    {
        RuntimePause { paused: false, in_flight: 0, grace_deadline_ms: 0 }
    }

    pub closed spec fn paused_view(&self) -> bool {
        self.paused
    }

    pub closed spec fn in_flight_view(&self) -> nat {
        self.in_flight as nat
    }

    pub closed spec fn deadline_view(&self) -> nat {
        self.grace_deadline_ms as nat
    }

    /// Whether an action suppresses detection at time `now`: one is running,
    /// or the last one ended less than the grace period ago.
    pub open spec fn suppressed_at(&self, now: u64) -> bool {
        self.in_flight_view() > 0 || (now as nat) < self.deadline_view()
    }

    pub fn is_paused(&self) -> (b: bool)
        ensures
            b == self.paused_view(),
    {
        self.paused
    }

    /// Flips the pause switch and returns whether the runtime is now paused.
    pub fn toggle(&mut self) -> (now_paused: bool)
        ensures
            final(self).paused_view() == !old(self).paused_view(),
            now_paused == final(self).paused_view(),
            final(self).in_flight_view() == old(self).in_flight_view(),
            final(self).deadline_view() == old(self).deadline_view(),
    {
        self.paused = !self.paused;
        self.paused
    }

    /// Whether an action suppresses detection at time `now_ms`.
    pub fn is_action_in_flight_at(&self, now_ms: u64) -> (b: bool)
        ensures
            b == self.suppressed_at(now_ms),
    {
        if self.in_flight > 0 {
            return true;
        }
        now_ms < self.grace_deadline_ms
    }

    /// Whether an action suppresses detection now, by the system clock.
    pub fn is_action_in_flight(&self) -> (b: bool)
        ensures
            self.in_flight_view() > 0 ==> b,
            b ==> self.in_flight_view() > 0 || self.deadline_view() > 0,
    {
        self.is_action_in_flight_at(now_ms())
    }

    /// Starts an action; detection stays suppressed until it ends.
    pub fn begin_action(&mut self) -> (guard: ActionGuard)
        requires
            old(self).in_flight_view() < u64::MAX,
        ensures
            final(self).in_flight_view() == old(self).in_flight_view() + 1,
            final(self).paused_view() == old(self).paused_view(),
            final(self).deadline_view() == old(self).deadline_view(),
            pause_step(*old(self), *final(self), PauseEvent::Begin),
    {
        self.in_flight = self.in_flight + 1;
        ActionGuard { _private: () }
    }

    /// Ends an action at time `now_ms`: the grace period restarts from `now_ms`.
    pub fn end_action_at(&mut self, guard: ActionGuard, now_ms: u64)
        requires
            old(self).in_flight_view() > 0,
            now_ms <= u64::MAX - GRACE_MS,
        ensures
            final(self).in_flight_view() == old(self).in_flight_view() - 1,
            final(self).deadline_view() == now_ms + GRACE_MS,
            final(self).paused_view() == old(self).paused_view(),
            pause_step(*old(self), *final(self), PauseEvent::End(now_ms)),
    {
        self.grace_deadline_ms = now_ms + GRACE_MS;
        self.in_flight = self.in_flight - 1;
    }

    /// Ends an action now, by the system clock (a clock within the grace
    /// period of the end of time is taken as that limit).
    pub fn end_action(&mut self, guard: ActionGuard)
        requires
            old(self).in_flight_view() > 0,
        ensures
            final(self).in_flight_view() == old(self).in_flight_view() - 1,
            final(self).deadline_view() >= GRACE_MS,
            final(self).paused_view() == old(self).paused_view(),
    {
        let now = now_ms();
        let now = if now > u64::MAX - GRACE_MS {
            u64::MAX - GRACE_MS
        } else {
            now
        };
        self.end_action_at(guard, now);
    }

    /// Runs a polling tick at `now_ms` when the automatic toolbar is on, the
    /// runtime is not paused and no action suppresses detection.
    pub fn run_polling_at<T, F: FnOnce() -> T>(
        &self,
        now_ms: u64,
        automatic_toolbar: bool,
        action: F,
    ) -> (r: Option<T>)
        requires
            action.requires(()),
        ensures
            r is Some <==> (automatic_toolbar && !self.paused_view() && !self.suppressed_at(now_ms)),
            r matches Some(v) ==> action.ensures((), v),
    {
        if automatic_toolbar && !self.is_paused() && !self.is_action_in_flight_at(now_ms) {
            Some(action())
        } else {
            None
        }
    }

    /// Runs an accessibility-observer callback at `now_ms` when not paused
    /// and no action suppresses detection.
    pub fn run_ax_observer_at<T, F: FnOnce() -> T>(&self, now_ms: u64, action: F) -> (r: Option<T>)
        requires
            action.requires(()),
        ensures
            r is Some <==> (!self.paused_view() && !self.suppressed_at(now_ms)),
            r matches Some(v) ==> action.ensures((), v),
    {
        if !self.is_paused() && !self.is_action_in_flight_at(now_ms) {
            Some(action())
        } else {
            None
        }
    }

    /// Runs a mouse-dismiss callback at `now_ms` when no action suppresses
    /// detection; the pause does not block dismissal.
    pub fn run_mouse_dismiss_at<T, F: FnOnce() -> T>(&self, now_ms: u64, action: F) -> (r: Option<
        T,
    >)
        requires
            action.requires(()),
        ensures
            r is Some <==> !self.suppressed_at(now_ms),
            r matches Some(v) ==> action.ensures((), v),
    {
        if !self.is_action_in_flight_at(now_ms) {
            Some(action())
        } else {
            None
        }
    }

    /// A polling tick, by the system clock.
    pub fn run_polling<T, F: FnOnce() -> T>(&self, automatic_toolbar: bool, action: F) -> (r:
        Option<T>)
        requires
            action.requires(()),
        ensures
            r is Some ==> automatic_toolbar && !self.paused_view() && self.in_flight_view() == 0,
            (automatic_toolbar && !self.paused_view() && self.in_flight_view() == 0
                && self.deadline_view() == 0) ==> r is Some,
            r matches Some(v) ==> action.ensures((), v),
    {
        self.run_polling_at(now_ms(), automatic_toolbar, action)
    }

    /// An accessibility-observer callback, by the system clock.
    pub fn run_ax_observer<T, F: FnOnce() -> T>(&self, action: F) -> (r: Option<T>)
        requires
            action.requires(()),
        ensures
            r is Some ==> !self.paused_view() && self.in_flight_view() == 0,
            (!self.paused_view() && self.in_flight_view() == 0 && self.deadline_view() == 0) ==> r is Some,
            r matches Some(v) ==> action.ensures((), v),
    {
        self.run_ax_observer_at(now_ms(), action)
    }

    /// A mouse-dismiss callback, by the system clock.
    pub fn run_mouse_dismiss<T, F: FnOnce() -> T>(&self, action: F) -> (r: Option<T>)
        requires
            action.requires(()),
        ensures
            r is Some ==> self.in_flight_view() == 0,
            (self.in_flight_view() == 0 && self.deadline_view() == 0) ==> r is Some,
            r matches Some(v) ==> action.ensures((), v),
    {
        self.run_mouse_dismiss_at(now_ms(), action)
    }

    /// A global-shortcut press runs unless the runtime is paused.
    pub fn run_global_shortcut<T, F: FnOnce() -> T>(&self, action: F) -> (r: Option<T>)
        requires
            action.requires(()),
        ensures
            r is Some <==> !self.paused_view(),
            r matches Some(v) ==> action.ensures((), v),
    {
        if !self.is_paused() {
            Some(action())
        } else {
            None
        }
    }

    /// The clipboard fallback runs unless the runtime is paused.
    pub fn run_clipboard_fallback<T, F: FnOnce() -> T>(&self, action: F) -> (r: Option<T>)
        requires
            action.requires(()),
        ensures
            r is Some <==> !self.paused_view(),
            r matches Some(v) ==> action.ensures((), v),
    {
        if !self.is_paused() {
            Some(action())
        } else {
            None
        }
    }
}

impl Default for RuntimePause {
    fn default() -> (p: Self)
        ensures
            !p.paused_view(),
            p.in_flight_view() == 0,
            p.deadline_view() == 0,
    {
        RuntimePause::new()
    }
}

/// Detection stays suppressed until every begun action has ended and the
/// grace period after the last end has expired: with `n` actions begun and
/// ended in turn, the last at time `t`, detection is suppressed exactly
/// before `t + GRACE_MS`.
pub proof fn lemma_grace_after_last_end(p: RuntimePause, t: u64, now: u64)
    requires
        p.in_flight_view() == 0,
        p.deadline_view() == t + GRACE_MS,
    ensures
        p.suppressed_at(now) <==> (now as int) < t + GRACE_MS,
{
}

/// While any action is running detection is suppressed, whatever the time.
pub proof fn lemma_running_action_suppresses(p: RuntimePause, now: u64)
    requires
        p.in_flight_view() > 0,
    ensures
        p.suppressed_at(now),
{
}

/// The pause gate over any run of actions begun and ended, from a gate
/// with none running: as many actions run as were begun and not yet ended;
/// while any runs detection is suppressed whatever the time; once every
/// begun action has ended, the last at `t`, detection is suppressed exactly
/// before `t + GRACE_MS`.
pub proof fn lemma_suppressed_until_every_action_ends(
    states: Seq<RuntimePause>,
    events: Seq<PauseEvent>,
    now: u64,
)
    requires
        states.len() == events.len() + 1,
        states[0].in_flight_view() == 0,
        forall|i: int|
            0 <= i < events.len() ==> pause_step(states[i], states[i + 1], #[trigger] events[i]),
    ensures
        ended(events) <= begun(events),
        states.last().in_flight_view() == begun(events) - ended(events),
        begun(events) > ended(events) ==> states.last().suppressed_at(now),
        begun(events) == ended(events) ==> (last_end(events) matches Some(t) ==> (states.last().suppressed_at(now)
            <==> (now as int) < t + GRACE_MS)),
{
    pause_prefix(states, events, events.len());
    assert(events.take(events.len() as int) =~= events);
}

proof fn pause_prefix(states: Seq<RuntimePause>, events: Seq<PauseEvent>, k: nat)
    requires
        states.len() == events.len() + 1,
        forall|i: int|
            0 <= i < events.len() ==> pause_step(states[i], states[i + 1], #[trigger] events[i]),
        k <= events.len(),
    ensures
        states[k as int].in_flight_view() + ended(events.take(k as int)) == states[0].in_flight_view()
            + begun(events.take(k as int)),
        last_end(events.take(k as int)) matches Some(t) ==> states[k as int].deadline_view() == t
            + GRACE_MS,
    decreases k,
{
    if k > 0 {
        let j = k - 1;
        pause_prefix(states, events, j as nat);
        assert(events.take(k as int).drop_last() =~= events.take(j));
        assert(events.take(k as int).last() == events[j]);
        assert(pause_step(states[j], states[j + 1], events[j]));
    }
}

} // verus!
