//! The selection state machine.
//!
//! Captures are immutable; the latest capture wins. Every piece of feedback
//! and every write is guarded by a lease, identified by a serial number: a
//! lease publishes only while the coordinator still holds it, and replacing
//! or dropping it cancels it. A transformation is pinned to one capture and
//! one request; a failure after pinning returns to the toolbar without
//! touching the document.
use crate::error::VerbalixError;
use crate::ids::fresh_id;
use crate::mutation_journal::{lemma_recorded_from, recorded, MutationJournal, MutationRecord};
use crate::ports::{OverlayPort, SelectionPort};
use crate::runtime_pause::RuntimePause;
use crate::selection::{
    same_target_spec, state_snapshot, MutationProjection, Rect, MutationReceipt, MutationStatus, SelectionEvent,
    SelectionSnapshot, SelectionState,
};
use crate::text::{is_blank, same_text, trim};
use crate::transform::{TransformRequest, TransformResult};
use crate::transform_lease::{TransformLease, WritePhase};
use vstd::prelude::*;

verus! {

/// The longest selection, in characters, a transformation accepts.
pub const MAX_SELECTION_CHARS: usize = 12_000;

/// The capture whose toolbar is (or will be) shown, with its lease.
struct SelectionPresentation {
    snapshot: SelectionSnapshot,
    guard: TransformLease,
    serial: u64,
}

/// The transformation pinned to a capture and a request, with its lease.
struct ActiveTransform {
    snapshot: SelectionSnapshot,
    request_id: u128,
    lease: TransformLease,
    serial: u64,
}

pub struct SelectionCoordinator<S, O> {
    selection: S,
    overlay: O,
    state: SelectionState,
    presentation: Option<SelectionPresentation>,
    active_transform: Option<ActiveTransform>,
    mutation_journal: MutationJournal,
    next_serial: u64,
    writes: Ghost<Seq<(SelectionSnapshot, Seq<char>)>>,
    restores: Ghost<Seq<(SelectionSnapshot, Seq<char>)>>,
}

/// What a pinned transformation was waiting for and is allowed to become.
pub enum CommitTarget {
    ResultVisible,
    PreviewVisible(String),
}

/// Whether `s` is the transformation `request_id` pinned to `snapshot`'s target,
/// or its preview.
pub open spec fn pinned_to(s: SelectionState, snapshot: SelectionSnapshot, request_id: u128) -> bool {
    match s {
        SelectionState::Processing { snapshot: cur, request_id: rid } => rid == request_id
            && same_target_spec(cur, snapshot),
        SelectionState::PreviewVisible { snapshot: cur, request_id: rid, .. } => rid == request_id
            && same_target_spec(cur, snapshot),
        _ => false,
    }
}


/// The capture a transformation can be pinned to in state `s` for the
/// capture id `snapshot_id`: the toolbar, a result note or a preview of it.
pub open spec fn pinnable(s: SelectionState, snapshot_id: u128) -> Option<SelectionSnapshot> {
    match s {
        SelectionState::ToolbarVisible(x) => if x.id == snapshot_id { Some(x) } else { None },
        SelectionState::ResultVisible(x) => if x.id == snapshot_id { Some(x) } else { None },
        SelectionState::PreviewVisible { snapshot: x, .. } => if x.id == snapshot_id {
            Some(x)
        } else {
            None
        },
        _ => None,
    }
}

/// State `s` after giving up request `request_id`: a transformation pinned
/// under that request goes back to the toolbar of its capture.
pub open spec fn recovered(s: SelectionState, request_id: u128) -> SelectionState {
    match s {
        SelectionState::Processing { snapshot, request_id: rid } => if rid == request_id {
            SelectionState::ToolbarVisible(snapshot)
        } else {
            s
        },
        _ => s,
    }
}

/// The capture of the transformation pinned under this request to a target
/// like `snapshot`'s, in state `s`.
pub open spec fn processing_target(s: SelectionState, snapshot: SelectionSnapshot, request_id: u128) -> Option<
    SelectionSnapshot,
> {
    match s {
        SelectionState::Processing { snapshot: cur, request_id: rid } => if rid == request_id
            && same_target_spec(cur, snapshot) {
            Some(cur)
        } else {
            None
        },
        _ => None,
    }
}

/// The state a valid answer leads to from the pinned capture `cur`: a note
/// for a read-only field, a preview when asked for, else the written result.
pub open spec fn answered(cur: SelectionSnapshot, request_id: u128, result: String, preview_writable: bool) -> SelectionState {
    if !cur.writable {
        SelectionState::ResultVisible(cur)
    } else if preview_writable {
        SelectionState::PreviewVisible { snapshot: cur, request_id, result }
    } else {
        SelectionState::Applied { snapshot: cur, transformed_text: result, mutation_id: None }
    }
}


/// The capture a valid answer is written over in place: the pinned capture,
/// when it is writable and no preview was asked for.
pub open spec fn written_target(
    s: SelectionState,
    snapshot: SelectionSnapshot,
    request: TransformRequest,
    response: TransformResult,
    preview_writable: bool,
) -> Option<SelectionSnapshot> {
    if response.request_id == request.request_id && trim(response.result@).len() > 0
        && !preview_writable {
        match processing_target(s, snapshot, request.request_id) {
            Some(t) => if t.writable {
                Some(t)
            } else {
                None
            },
            None => None,
        }
    } else {
        None
    }
}

/// What the platform recorded agrees with the mutation about to be journaled.
pub open spec fn projection_agrees(
    p: MutationProjection,
    receipt: MutationReceipt,
    snapshot: SelectionSnapshot,
    result: Seq<char>,
) -> bool {
    &&& p.receipt == receipt
    &&& p.status == MutationStatus::Confirmed
    &&& same_target_spec(p.snapshot, snapshot)
    &&& p.original_text@ == snapshot.text@
    &&& p.transformed_text@ == result
    &&& p.strategy == snapshot.extraction_strategy
    &&& p.target_snapshot_id == snapshot.id
}

/// Whether what the platform reconciled for a mutation lets it be
/// journaled: nothing was reconciled, or a confirmed record that agrees with
/// the receipt, the capture and the result.
pub fn reconciliation_agrees(
    reconciled: &Option<MutationProjection>,
    receipt: MutationReceipt,
    snapshot: &SelectionSnapshot,
    result: &str,
) -> (b: bool)
    ensures
        b == match *reconciled {
            None => true,
            Some(p) => projection_agrees(p, receipt, *snapshot, result@),
        },
{
    match reconciled {
        None => true,
        Some(record) => record.receipt == receipt && record.status == MutationStatus::Confirmed
            && record.snapshot.same_target(snapshot) && same_text(
            record.original_text.as_str(),
            snapshot.text.as_str(),
        ) && same_text(record.transformed_text.as_str(), result)
            && record.strategy == snapshot.extraction_strategy && record.target_snapshot_id
            == snapshot.id,
    }
}

/// What a write that reported `error` still yields: the receipt of the
/// mutation the platform reconciled, when it confirmed that mutation for
/// this target and this text; otherwise the write's error.
pub fn recovered_receipt(
    reconciled: Option<MutationProjection>,
    snapshot: &SelectionSnapshot,
    result: &str,
    error: VerbalixError,
) -> (r: Result<MutationReceipt, VerbalixError>)
    ensures
        match reconciled {
            Some(p) => if p.status == MutationStatus::Confirmed && same_target_spec(p.snapshot, *snapshot)
                && p.transformed_text@ == result@ {
                r == Ok::<MutationReceipt, VerbalixError>(p.receipt)
            } else {
                r == Err::<MutationReceipt, VerbalixError>(error)
            },
            None => r == Err::<MutationReceipt, VerbalixError>(error),
        },
{
    match reconciled {
        Some(record) => if record.status == MutationStatus::Confirmed && record.snapshot.same_target(
            snapshot,
        ) && same_text(record.transformed_text.as_str(), result) {
            Ok(record.receipt)
        } else {
            Err(error)
        },
        None => Err(error),
    }
}

/// The platform reconciled a mutation with this receipt as confirmed for the
/// target of `snapshot` with the text `result`.
pub open spec fn reconciled_confirmation(
    receipt: MutationReceipt,
    snapshot: SelectionSnapshot,
    result: Seq<char>,
) -> bool {
    exists|p: MutationProjection|
        p.receipt == receipt && p.status == MutationStatus::Confirmed && same_target_spec(
            p.snapshot,
            snapshot,
        ) && #[trigger] p.transformed_text@ == result
}

/// The lease held under a serial after a guarded write, from the one held
/// before: none stays none; a held lease keeps its capture and request and
/// is claimed if it was active, or is given up.
pub open spec fn lease_after_write(before: Option<TransformLease>, after: Option<TransformLease>) -> bool {
    match before {
        None => after is None,
        Some(l) => match after {
            None => true,
            Some(k) => k.snapshot_view() == l.snapshot_view() && k.request_view() == l.request_view()
                && k.phase_view() == (if l.phase_view() == WritePhase::Active {
                WritePhase::Claimed
            } else {
                l.phase_view()
            }),
        },
    }
}

/// A receipt the write itself gave under the lease held before it: only an
/// active lease writes, and the receipt names the capture and the lease's
/// request.
pub open spec fn written_receipt(held: Option<TransformLease>, receipt: MutationReceipt, snapshot: SelectionSnapshot) -> bool {
    match held {
        Some(l) => l.phase_view() == WritePhase::Active && receipt.snapshot_id == snapshot.id
            && receipt.request_id == l.request_view(),
        None => false,
    }
}

/// The state a commit leads to for `snapshot` under `request_id`.
pub open spec fn committed(target: CommitTarget, snapshot: SelectionSnapshot, request_id: u128) -> SelectionState {
    match target {
        CommitTarget::ResultVisible => SelectionState::ResultVisible(snapshot),
        CommitTarget::PreviewVisible(result) => SelectionState::PreviewVisible { snapshot, request_id, result },
    }
}

impl<S: SelectionPort, O: OverlayPort> SelectionCoordinator<S, O> {
    pub closed spec fn state_view(&self) -> SelectionState {
        self.state
    }

    /// The capture presented and the serial of its lease.
    pub closed spec fn presentation_view(&self) -> Option<(SelectionSnapshot, u64)> {
        match self.presentation {
            Some(p) => Some((p.snapshot, p.serial)),
            None => None,
        }
    }

    /// The pinned capture, its request and the serial of its lease.
    pub closed spec fn active_view(&self) -> Option<(SelectionSnapshot, u128, u64)> {
        match self.active_transform {
            Some(a) => Some((a.snapshot, a.request_id, a.serial)),
            None => None,
        }
    }

    /// The lease the coordinator holds under `serial`, with its write phase:
    /// the pinned transformation's or the presented capture's.
    pub closed spec fn held_lease(&self, serial: u64) -> Option<TransformLease> {
        if self.active_transform is Some && self.active_transform->0.serial == serial {
            Some(self.active_transform->0.lease)
        } else if self.presentation is Some && self.presentation->0.serial == serial {
            Some(self.presentation->0.guard)
        } else {
            None
        }
    }

    pub closed spec fn journal_view(&self) -> MutationJournal {
        self.mutation_journal
    }

    /// What the coordinator has written into documents through the
    /// selection port, in order: the capture written over and the text.
    pub closed spec fn writes_view(&self) -> Seq<(SelectionSnapshot, Seq<char>)> {
        self.writes@
    }

    /// The restores the coordinator asked of the selection port, in order:
    /// the capture whose original text is put back, and the transformed text
    /// expected in its place.
    pub closed spec fn restores_view(&self) -> Seq<(SelectionSnapshot, Seq<char>)> {
        self.restores@
    }

    /// The serial the next lease will get.
    pub closed spec fn next_serial_view(&self) -> u64 {
        self.next_serial
    }

    /// Whether the lease with this serial may still publish: exactly the
    /// leases the coordinator holds.
    pub open spec fn publishes(&self, serial: u64) -> bool {
        (self.presentation_view() matches Some(p) && p.1 == serial) || (
        self.active_view() matches Some(a) && a.2 == serial)
    }

    /// Whether `snapshot` addresses a new target: anything but the target of
    /// a transformation in progress.
    pub open spec fn new_target(&self, snapshot: SelectionSnapshot) -> bool {
        !(self.state_view() matches SelectionState::Processing { snapshot: cur, .. }
            && same_target_spec(cur, snapshot))
    }

    /// How taking the capture `snapshot` turns `before` into `after`: a
    /// capture of the target in progress changes nothing; any other becomes
    /// the candidate, presented under the next serial, and unpins a
    /// transformation in progress or one about another target.
    pub open spec fn capture_step(before: Self, after: Self, snapshot: SelectionSnapshot) -> bool {
        if !before.new_target(snapshot) {
            &&& after.state_view() == before.state_view()
            &&& after.presentation_view() == before.presentation_view()
            &&& after.active_view() == before.active_view()
            &&& after.next_serial_view() == before.next_serial_view()
        } else {
            &&& after.state_view() == SelectionState::Candidate(snapshot)
            &&& after.presentation_view() == Some((snapshot, before.next_serial_view()))
            &&& after.next_serial_view() == before.next_serial_view() + 1
            &&& after.active_view() == (if before.state_view() is Processing || (
            before.active_view() matches Some(a) && !same_target_spec(a.0, snapshot)) {
                None
            } else {
                before.active_view()
            })
        }
    }

    pub closed spec fn well_formed(&self) -> bool {
        &&& self.mutation_journal.well_formed()
        &&& (self.presentation matches Some(p) ==> p.guard.publishable() && p.serial
            < self.next_serial && p.guard.snapshot_view() == p.snapshot.id
            && p.guard.request_view() == 0)
        &&& (self.active_transform matches Some(a) ==> a.lease.publishable() && a.serial
            < self.next_serial && a.lease.snapshot_view() == a.snapshot.id
            && a.lease.request_view() == a.request_id)
        &&& (self.presentation matches Some(p) ==> self.active_transform matches Some(a)
            ==> p.serial != a.serial)
        &&& forall|i: int|
            0 <= i < self.mutation_journal.records_view().len() ==> Self::fresh_undo_lease(
                #[trigger] self.mutation_journal.records_view()[i].undo_lease,
                self.next_serial,
                self.presentation_view(),
            )
    }

    /// An undo lease serial that was issued and is not the presented
    /// capture's.
    pub open spec fn fresh_undo_lease(serial: u64, next: u64, presentation: Option<(SelectionSnapshot, u64)>) -> bool {
        serial < next && !(presentation matches Some(p) && p.1 == serial)
    }

    /// The leases held were issued before the next serial and are distinct.
    pub proof fn lemma_serials_issued(&self)
        requires
            self.well_formed(),
        ensures
            self.presentation_view() matches Some(p) ==> p.1 < self.next_serial_view(),
            self.active_view() matches Some(a) ==> a.2 < self.next_serial_view(),
            (self.presentation_view() is Some && self.active_view() is Some) ==> (
            self.presentation_view()->0).1 != (self.active_view()->0).2,
    {
    }

    /// A coordinator in the idle state, holding no lease.
    pub fn new(selection: S, overlay: O) -> (c: Self)
        ensures
            c.well_formed(),
            c.selection_view() == selection,
            c.overlay_view() == overlay,
            c.state_view() == SelectionState::Idle,
            c.presentation_view() is None,
            c.active_view() is None,
            c.journal_view().records_view().len() == 0,
            c.writes_view().len() == 0,
            c.restores_view().len() == 0,
    {
        SelectionCoordinator {
            selection,
            overlay,
            state: SelectionState::Idle,
            presentation: None,
            active_transform: None,
            mutation_journal: MutationJournal::new(),
            next_serial: 0,
            writes: Ghost(Seq::empty()),
            restores: Ghost(Seq::empty()),
        }
    }

    pub closed spec fn selection_view(&self) -> S {
        self.selection
    }

    pub closed spec fn overlay_view(&self) -> O {
        self.overlay
    }

    /// The selection port.
    pub fn selection(&self) -> (s: &S)
        ensures
            *s == self.selection_view(),
    {
        &self.selection
    }

    /// The overlay port.
    pub fn overlay(&self) -> (o: &O)
        ensures
            *o == self.overlay_view(),
    {
        &self.overlay
    }

    /// The capture the current state is about.
    pub fn current_snapshot(&self) -> (r: Option<SelectionSnapshot>)
        ensures
            r == state_snapshot(self.state_view()),
    {
        match &self.state {
            SelectionState::Candidate(snapshot)
            | SelectionState::ToolbarVisible(snapshot)
            | SelectionState::ResultVisible(snapshot)
            | SelectionState::PreviewVisible { snapshot, .. }
            | SelectionState::Applied { snapshot, .. }
            | SelectionState::Processing { snapshot, .. } => Some(snapshot.clone()),
            SelectionState::Idle => None,
        }
    }

    fn take_serial(&mut self) -> (serial: u64)
        requires
            old(self).next_serial_view() < u64::MAX,
        ensures
            final(self).restores_view() == old(self).restores_view(),
            serial == old(self).next_serial_view(),
            final(self).next_serial_view() == serial + 1,
            final(self).state_view() == old(self).state_view(),
            final(self).presentation_view() == old(self).presentation_view(),
            final(self).active_view() == old(self).active_view(),
            final(self).journal_view() == old(self).journal_view(),
            old(self).well_formed() ==> final(self).well_formed(),
    {
        let serial = self.next_serial;
        self.next_serial = self.next_serial + 1;
        serial
    }

    /// Whether the lease with this serial may still publish.
    pub fn may_publish(&self, serial: u64) -> (b: bool)
        requires
            self.well_formed(),
        ensures
            b == self.publishes(serial),
    {
        let by_presentation = match &self.presentation {
            Some(p) => p.serial == serial && p.guard.may_publish(),
            None => false,
        };
        let by_active = match &self.active_transform {
            Some(a) => a.serial == serial && a.lease.may_publish(),
            None => false,
        };
        by_presentation || by_active
    }

    /// Presents a new capture; the lease of the previous one is cancelled.
    fn install_presentation(&mut self, snapshot: SelectionSnapshot)
        requires
            old(self).well_formed(),
            old(self).next_serial_view() < u64::MAX,
        ensures
            final(self).restores_view() == old(self).restores_view(),
            final(self).well_formed(),
            final(self).presentation_view() == Some((snapshot, old(self).next_serial_view())),
            final(self).next_serial_view() == old(self).next_serial_view() + 1,
            final(self).state_view() == old(self).state_view(),
            final(self).active_view() == old(self).active_view(),
            final(self).journal_view() == old(self).journal_view(),
    {
        if let Some(mut previous) = self.presentation.take() {
            previous.guard.cancel();
        }
        let serial = self.take_serial();
        let guard = TransformLease::new(snapshot.id, 0);
        self.presentation = Some(SelectionPresentation { guard, snapshot, serial });
    }

    /// Withdraws the presentation and cancels its lease.
    fn cancel_presentation(&mut self)
        requires
            old(self).well_formed(),
        ensures
            final(self).restores_view() == old(self).restores_view(),
            final(self).well_formed(),
            final(self).presentation_view() is None,
            final(self).next_serial_view() == old(self).next_serial_view(),
            final(self).state_view() == old(self).state_view(),
            final(self).active_view() == old(self).active_view(),
            final(self).journal_view() == old(self).journal_view(),
    {
        if let Some(mut presentation) = self.presentation.take() {
            presentation.guard.cancel();
        }
    }

    /// Pins a transformation to a capture and a request; the lease of the
    /// previous one is cancelled. Returns the serial of the new lease.
    fn install_active_transform(&mut self, snapshot: SelectionSnapshot, request_id: u128) -> (serial:
        u64)
        requires
            old(self).well_formed(),
            old(self).next_serial_view() < u64::MAX,
        ensures
            final(self).well_formed(),
            serial == old(self).next_serial_view(),
            final(self).active_view() == Some((snapshot, request_id, serial)),
            final(self).next_serial_view() == old(self).next_serial_view() + 1,
            final(self).state_view() == old(self).state_view(),
            final(self).presentation_view() == old(self).presentation_view(),
            final(self).journal_view() == old(self).journal_view(),
    {
        if let Some(mut previous) = self.active_transform.take() {
            previous.lease.cancel();
        }
        let serial = self.take_serial();
        let lease = TransformLease::new(snapshot.id, request_id);
        self.active_transform = Some(ActiveTransform { snapshot, request_id, lease, serial });
        serial
    }

    /// Unpins the transformation and cancels its lease.
    fn cancel_active_transform(&mut self)
        requires
            old(self).well_formed(),
        ensures
            final(self).restores_view() == old(self).restores_view(),
            final(self).well_formed(),
            final(self).active_view() is None,
            final(self).next_serial_view() == old(self).next_serial_view(),
            final(self).state_view() == old(self).state_view(),
            final(self).presentation_view() == old(self).presentation_view(),
            final(self).journal_view() == old(self).journal_view(),
    {
        if let Some(mut active) = self.active_transform.take() {
            active.lease.cancel();
        }
    }

    /// Unpins the transformation when it is about another target; returns
    /// whether it did.
    fn cancel_active_transform_if_different(&mut self, snapshot: &SelectionSnapshot) -> (superseded:
        bool)
        requires
            old(self).well_formed(),
        ensures
            final(self).restores_view() == old(self).restores_view(),
            final(self).well_formed(),
            superseded == (old(self).active_view() matches Some(a) && !same_target_spec(
                a.0,
                *snapshot,
            )),
            final(self).active_view() == (if superseded {
                None
            } else {
                old(self).active_view()
            }),
            final(self).next_serial_view() == old(self).next_serial_view(),
            final(self).state_view() == old(self).state_view(),
            final(self).presentation_view() == old(self).presentation_view(),
            final(self).journal_view() == old(self).journal_view(),
    {
        let different = match &self.active_transform {
            Some(active) => !active.snapshot.same_target(snapshot),
            None => false,
        };
        if different {
            self.cancel_active_transform();
        }
        different
    }

    /// The serial of the pinned lease when it was issued for this capture
    /// and request.
    pub fn publication_guard(&self, snapshot_id: u128, request_id: u128) -> (guard: Option<u64>)
        requires
            self.well_formed(),
        ensures
            guard == (match self.active_view() {
                Some(a) => if a.0.id == snapshot_id && a.1 == request_id {
                    Some(a.2)
                } else {
                    None
                },
                None => None,
            }),
    {
        match &self.active_transform {
            Some(active) => if active.lease.owns(snapshot_id, request_id) {
                Some(active.serial)
            } else {
                None
            },
            None => None,
        }
    }

    /// The serial of the lease under which feedback about a capture may be
    /// shown: the presentation's when it presents the capture, else the
    /// pinned transformation's when it is pinned to it.
    pub fn feedback_guard(&self, snapshot_id: u128) -> (guard: Option<u64>)
        ensures
            guard == (if self.presentation_view() matches Some(p) && p.0.id == snapshot_id {
                Some((self.presentation_view()->0).1)
            } else if self.active_view() matches Some(a) && a.0.id == snapshot_id {
                Some((self.active_view()->0).2)
            } else {
                None
            }),
    {
        if let Some(presentation) = &self.presentation {
            if presentation.snapshot.id == snapshot_id {
                return Some(presentation.serial);
            }
        }
        match &self.active_transform {
            Some(active) => if active.snapshot.id == snapshot_id {
                Some(active.serial)
            } else {
                None
            },
            None => None,
        }
    }

    /// How many more leases the coordinator can issue.
    pub fn leases_left(&self) -> (n: u64)
        ensures
            n == u64::MAX - self.next_serial_view(),
    {
        u64::MAX - self.next_serial
    }

    /// Leaves every state for idle, withdrawing all feedback, unless the
    /// invalidation is transient and a transformation is pinned: then
    /// nothing changes. Returns what hiding the overlay answered.
    fn invalidate(&mut self, transient: bool) -> (r: Result<(), VerbalixError>)
        requires
            old(self).well_formed(),
        ensures
            final(self).restores_view() == old(self).restores_view(),
            final(self).well_formed(),
            final(self).journal_view() == old(self).journal_view(),
            final(self).next_serial_view() == old(self).next_serial_view(),
            if transient && old(self).state_view() is Processing {
                &&& r is Ok
                &&& final(self).state_view() == old(self).state_view()
                &&& final(self).presentation_view() == old(self).presentation_view()
                &&& final(self).active_view() == old(self).active_view()
            } else {
                &&& final(self).state_view() == SelectionState::Idle
                &&& final(self).presentation_view() is None
                &&& final(self).active_view() is None
            },
    {
        if transient {
            if let SelectionState::Processing { .. } = &self.state {
                return Ok(());
            }
        }
        self.cancel_presentation();
        self.cancel_active_transform();
        self.state = SelectionState::Idle;
        self.overlay.hide_all()
    }

    /// Takes a new capture. While a transformation is pinned, a capture of
    /// the same target changes nothing; any other capture becomes the
    /// candidate, is presented under a new lease, and unpins a
    /// transformation about another target (the overlay is then hidden; a
    /// failure to hide is not reported).
    fn store_candidate(&mut self, snapshot: SelectionSnapshot) -> (r: Result<(), VerbalixError>)
        requires
            old(self).well_formed(),
            old(self).next_serial_view() < u64::MAX,
        ensures
            final(self).restores_view() == old(self).restores_view(),
            r is Ok,
            final(self).well_formed(),
            final(self).journal_view() == old(self).journal_view(),
            Self::capture_step(*old(self), *final(self), snapshot),
    {
        let superseded = if let SelectionState::Processing { snapshot: active, .. } = &self.state {
            if active.same_target(&snapshot) {
                return Ok(());
            }
            self.install_presentation(snapshot.clone());
            self.cancel_active_transform();
            self.state = SelectionState::Candidate(snapshot);
            true
        } else {
            self.install_presentation(snapshot.clone());
            let superseded = self.cancel_active_transform_if_different(&snapshot);
            self.state = SelectionState::Candidate(snapshot);
            superseded
        };
        if superseded {
            let _hidden = self.overlay.hide_all();
        }
        Ok(())
    }

    /// The candidate capture with this id and the serial of its
    /// presentation lease; nothing when the state is not that candidate.
    fn candidate_presentation(&self, id: u128) -> (r: Result<Option<(SelectionSnapshot, u64)>, VerbalixError>)
        ensures
            match self.state_view() {
                SelectionState::Candidate(cur) if cur.id == id => match self.presentation_view() {
                    Some(p) if p.0.id == id => r == Ok::<Option<(SelectionSnapshot, u64)>, VerbalixError>(
                        Some((cur, p.1)),
                    ),
                    _ => r == Err::<Option<(SelectionSnapshot, u64)>, VerbalixError>(
                        VerbalixError::StaleSelection,
                    ),
                },
                _ => r == Ok::<Option<(SelectionSnapshot, u64)>, VerbalixError>(None),
            },
    {
        let snapshot = match &self.state {
            SelectionState::Candidate(snapshot) => if snapshot.id == id {
                snapshot.clone()
            } else {
                return Ok(None);
            },
            _ => return Ok(None),
        };
        match &self.presentation {
            Some(presentation) => if presentation.snapshot.id == id {
                Ok(Some((snapshot, presentation.serial)))
            } else {
                Err(VerbalixError::StaleSelection)
            },
            None => Err(VerbalixError::StaleSelection),
        }
    }

    /// The debounce of capture `id` elapsed: when that capture is still the
    /// candidate, its toolbar is shown under its lease and the state becomes
    /// `ToolbarVisible`; an error of the overlay is returned and leaves the
    /// state as it was.
    fn show_candidate_toolbar(&mut self, id: u128) -> (r: Result<(), VerbalixError>)
        requires
            old(self).well_formed(),
        ensures
            final(self).restores_view() == old(self).restores_view(),
            final(self).well_formed(),
            final(self).journal_view() == old(self).journal_view(),
            final(self).next_serial_view() == old(self).next_serial_view(),
            final(self).presentation_view() == old(self).presentation_view(),
            final(self).active_view() == old(self).active_view(),
            ({
                let presented = old(self).presentation_view() matches Some(p) && p.0.id == id;
                let candidate = old(self).state_view() matches SelectionState::Candidate(cur)
                    && cur.id == id;
                &&& (!candidate ==> r is Ok && final(self).state_view() == old(self).state_view())
                &&& (candidate && !presented ==> r == Err::<(), VerbalixError>(
                    VerbalixError::StaleSelection,
                ) && final(self).state_view() == old(self).state_view())
                &&& (candidate && presented && r is Ok ==> final(self).state_view()
                    == SelectionState::ToolbarVisible(state_snapshot(old(self).state_view())->0))
                &&& (r is Err ==> final(self).state_view() == old(self).state_view())
            }),
    {
        let (snapshot, guard) = match self.candidate_presentation(id)? {
            Some(found) => found,
            None => return Ok(()),
        };
        if self.may_publish(guard) {
            self.overlay.show_toolbar(snapshot.bounds)?;
        }
        let candidate_matches = match &self.state {
            SelectionState::Candidate(current) => current.id == id,
            _ => false,
        };
        let presentation_matches = match &self.presentation {
            Some(p) => p.snapshot.id == id && p.serial == guard,
            None => false,
        };
        if candidate_matches && presentation_matches && self.may_publish(guard) {
            self.state = SelectionState::ToolbarVisible(snapshot);
        }
        Ok(())
    }

    /// Handles one detection event.
    pub fn dispatch(&mut self, event: SelectionEvent) -> (r: Result<(), VerbalixError>)
        requires
            old(self).well_formed(),
            old(self).next_serial_view() < u64::MAX,
        ensures
            final(self).restores_view() == old(self).restores_view(),
            final(self).well_formed(),
            final(self).journal_view() == old(self).journal_view(),
            final(self).next_serial_view() <= old(self).next_serial_view() + 1,
            match event {
                SelectionEvent::Candidate(snapshot) => r is Ok && Self::capture_step(
                    *old(self),
                    *final(self),
                    snapshot,
                ),
                SelectionEvent::DebounceElapsed(id) => (final(self).state_view()
                    == old(self).state_view() || (old(self).state_view() matches SelectionState::Candidate(cur)
                    && cur.id == id && final(self).state_view() == SelectionState::ToolbarVisible(cur)))
                    && final(self).active_view() == old(self).active_view(),
                SelectionEvent::TransientInvalidated => if old(self).state_view() is Processing {
                    r is Ok && final(self).state_view() == old(self).state_view()
                        && final(self).active_view() == old(self).active_view()
                } else {
                    final(self).state_view() == SelectionState::Idle && final(self).active_view() is None
                        && final(self).presentation_view() is None
                },
                SelectionEvent::Invalidated => final(self).state_view() == SelectionState::Idle
                    && final(self).active_view() is None && final(self).presentation_view() is None,
            },
    {
        match event {
            SelectionEvent::Candidate(snapshot) => self.store_candidate(snapshot),
            SelectionEvent::TransientInvalidated => self.invalidate(true),
            SelectionEvent::Invalidated => self.invalidate(false),
            SelectionEvent::DebounceElapsed(id) => self.show_candidate_toolbar(id),
        }
    }

    /// Takes a capture of the selection. A capture longer than the limit
    /// invalidates the state and fails (with `TextTooLong`, or with the
    /// overlay's error when hiding failed); a capture of the target already
    /// held is discarded and the held capture (with its id) is kept; any
    /// other capture becomes the candidate.
    pub fn accept_capture(&mut self, snapshot: SelectionSnapshot) -> (r: Result<
        Option<SelectionSnapshot>,
        VerbalixError,
    >)
        requires
            old(self).well_formed(),
            old(self).next_serial_view() < u64::MAX,
        ensures
            final(self).well_formed(),
            final(self).journal_view() == old(self).journal_view(),
            final(self).next_serial_view() <= old(self).next_serial_view() + 1,
            (state_snapshot(old(self).state_view()) matches Some(held) && held.text@ != snapshot.text@)
                && snapshot.text@.len() <= MAX_SELECTION_CHARS ==> r == Ok::<
                Option<SelectionSnapshot>,
                VerbalixError,
            >(Some(snapshot)) && final(self).state_view() == SelectionState::Candidate(snapshot),
            if snapshot.text@.len() > MAX_SELECTION_CHARS {
                &&& r is Err
                &&& final(self).state_view() == SelectionState::Idle
                &&& final(self).presentation_view() is None
                &&& final(self).active_view() is None
            } else if state_snapshot(old(self).state_view()) is Some && same_target_spec(
                state_snapshot(old(self).state_view())->0,
                snapshot,
            ) {
                &&& r == Ok::<Option<SelectionSnapshot>, VerbalixError>(state_snapshot(old(self).state_view()))
                &&& final(self).state_view() == old(self).state_view()
                &&& final(self).presentation_view() == old(self).presentation_view()
                &&& final(self).active_view() == old(self).active_view()
            } else {
                &&& r == Ok::<Option<SelectionSnapshot>, VerbalixError>(Some(snapshot))
                &&& final(self).state_view() == SelectionState::Candidate(snapshot)
                &&& final(self).presentation_view() == Some((snapshot, old(self).next_serial_view()))
            },
    {
        if snapshot.text_chars() > MAX_SELECTION_CHARS {
            self.dispatch(SelectionEvent::Invalidated)?;
            return Err(VerbalixError::TextTooLong);
        }
        let current = self.current_snapshot();
        if let Some(active) = current {
            if active.same_target(&snapshot) {
                self.selection.discard_snapshot(snapshot.id);
                return Ok(Some(active));
            }
        }
        self.dispatch(SelectionEvent::Candidate(snapshot.clone()))?;
        Ok(Some(snapshot))
    }

    /// Captures the selection through the selection port and takes the
    /// capture as `accept_capture` does; a capture error is returned and
    /// changes nothing.
    pub fn refresh_selection(&mut self) -> (r: Result<Option<SelectionSnapshot>, VerbalixError>)
        requires
            old(self).well_formed(),
            old(self).next_serial_view() < u64::MAX,
        ensures
            final(self).well_formed(),
            final(self).journal_view() == old(self).journal_view(),
            final(self).next_serial_view() <= old(self).next_serial_view() + 1,
            r matches Ok(x) ==> x is Some && state_snapshot(final(self).state_view()) == x,
    {
        let snapshot = self.selection.capture()?;
        self.accept_capture(snapshot)
    }

    /// Pins a transformation under `request_id` to the capture `snapshot_id`
    /// shown in a toolbar, note or preview, with a new lease. Fails with
    /// `OperationInProgress` while another transformation is pinned and with
    /// `StaleSelection` when that capture is not shown; failures change nothing.
    pub fn begin_transform(&mut self, snapshot_id: u128, request_id: u128) -> (r: Result<
        SelectionSnapshot,
        VerbalixError,
    >)
        requires
            old(self).well_formed(),
            old(self).next_serial_view() < u64::MAX,
        ensures
            final(self).well_formed(),
            final(self).journal_view() == old(self).journal_view(),
            final(self).presentation_view() == old(self).presentation_view(),
            if old(self).state_view() is Processing {
                &&& r == Err::<SelectionSnapshot, VerbalixError>(VerbalixError::OperationInProgress)
                &&& final(self).state_view() == old(self).state_view()
                &&& final(self).active_view() == old(self).active_view()
            } else if let Some(snap) = pinnable(old(self).state_view(), snapshot_id) {
                &&& r == Ok::<SelectionSnapshot, VerbalixError>(snap)
                &&& final(self).state_view() == (SelectionState::Processing { snapshot: snap, request_id })
                &&& final(self).active_view() == Some((snap, request_id, old(self).next_serial_view()))
            } else {
                &&& r == Err::<SelectionSnapshot, VerbalixError>(VerbalixError::StaleSelection)
                &&& final(self).state_view() == old(self).state_view()
                &&& final(self).active_view() == old(self).active_view()
            },
    {
        if let SelectionState::Processing { .. } = &self.state {
            return Err(VerbalixError::OperationInProgress);
        }
        let snapshot = match &self.state {
            SelectionState::ToolbarVisible(snapshot)
            | SelectionState::ResultVisible(snapshot)
            | SelectionState::PreviewVisible { snapshot, .. } => if snapshot.id == snapshot_id {
                snapshot.clone()
            } else {
                return Err(VerbalixError::StaleSelection);
            },
            _ => return Err(VerbalixError::StaleSelection),
        };
        self.state = SelectionState::Processing { snapshot: snapshot.clone(), request_id };
        self.install_active_transform(snapshot.clone(), request_id);
        Ok(snapshot)
    }

    /// The capture pinned under `request_id` when it is capture `snapshot_id`.
    fn processing_snapshot(&self, snapshot_id: u128, request_id: u128) -> (r: Option<SelectionSnapshot>)
        ensures
            r == (match self.state_view() {
                SelectionState::Processing { snapshot, request_id: rid } => if snapshot.id
                    == snapshot_id && rid == request_id {
                    Some(snapshot)
                } else {
                    None
                },
                _ => None,
            }),
    {
        match &self.state {
            SelectionState::Processing { snapshot, request_id: active } => if snapshot.id
                == snapshot_id && *active == request_id {
                Some(snapshot.clone())
            } else {
                None
            },
            _ => None,
        }
    }

    /// The pinned capture a request is about to be sent for: it must be
    /// capture `snapshot_id`, pinned under the request, with the request's text.
    pub fn transform_target(&self, snapshot_id: u128, request: &TransformRequest) -> (r: Result<
        SelectionSnapshot,
        VerbalixError,
    >)
        ensures
            match self.state_view() {
                SelectionState::Processing { snapshot, request_id } => if snapshot.id == snapshot_id
                    && request_id == request.request_id && snapshot.text@ == request.text@ {
                    r == Ok::<SelectionSnapshot, VerbalixError>(snapshot)
                } else {
                    r == Err::<SelectionSnapshot, VerbalixError>(VerbalixError::StaleSelection)
                },
                _ => r == Err::<SelectionSnapshot, VerbalixError>(VerbalixError::StaleSelection),
            },
    {
        match self.processing_snapshot(snapshot_id, request.request_id) {
            Some(snapshot) => if snapshot.text == request.text {
                Ok(snapshot)
            } else {
                Err(VerbalixError::StaleSelection)
            },
            None => Err(VerbalixError::StaleSelection),
        }
    }

    /// Publishes a valid answer for the pinned capture: a read-only field
    /// gets a note, a preview is shown when asked for, otherwise the result
    /// is written into the document and an undo affordance offered (its
    /// failure is not reported). An answer for another request or with a
    /// blank result is `InvalidResponse`; a request no longer pinned to this
    /// target is `StaleSelection`. Any failure leaves the state as it was.
    fn finish_transform(
        &mut self,
        request: &TransformRequest,
        snapshot: &SelectionSnapshot,
        response: &TransformResult,
        preview_writable: bool,
    ) -> (r: Result<(), VerbalixError>)
        requires
            old(self).well_formed(),
        ensures
            final(self).well_formed(),
            final(self).journal_view() == old(self).journal_view(),
            final(self).presentation_view() == old(self).presentation_view(),
            final(self).active_view() == old(self).active_view(),
            final(self).next_serial_view() == old(self).next_serial_view(),
            response.request_id != request.request_id || trim(response.result@).len() == 0 ==> r
                == Err::<(), VerbalixError>(VerbalixError::InvalidResponse),
            response.request_id == request.request_id && trim(response.result@).len() > 0
                && processing_target(old(self).state_view(), *snapshot, request.request_id) is None
                ==> r == Err::<(), VerbalixError>(VerbalixError::StaleSelection),
            r is Err ==> final(self).state_view() == old(self).state_view(),
            r is Ok ==> final(self).state_view() == answered(
                processing_target(old(self).state_view(), *snapshot, request.request_id)->0,
                request.request_id,
                response.result,
                preview_writable,
            ),
            final(self).writes_view() == match written_target(
                old(self).state_view(),
                *snapshot,
                *request,
                *response,
                preview_writable,
            ) {
                Some(t) => old(self).writes_view().push((t, response.result@)),
                None => old(self).writes_view(),
            },
    {
        if response.request_id != request.request_id || is_blank(response.result.as_str()) {
            return Err(VerbalixError::InvalidResponse);
        }
        let active = match &self.state {
            SelectionState::Processing { snapshot: current, request_id: active_request } => if *active_request
                == request.request_id && current.same_target(snapshot) {
                current.clone()
            } else {
                return Err(VerbalixError::StaleSelection);
            },
            _ => return Err(VerbalixError::StaleSelection),
        };
        if !active.writable {
            self.overlay.show_note(active.bounds, response.result.as_str())?;
            self.state = SelectionState::ResultVisible(active);
            return Ok(());
        }
        if preview_writable {
            self.overlay.show_preview(active.bounds, request.request_id, response.result.as_str())?;
            self.state = SelectionState::PreviewVisible {
                snapshot: active,
                request_id: request.request_id,
                result: response.result.clone(),
            };
            return Ok(());
        }
        self.write_selection(&active, response.result.as_str())?;
        let bounds = active.bounds;
        self.state = SelectionState::Applied {
            snapshot: active,
            transformed_text: response.result.clone(),
            mutation_id: None,
        };
        let _feedback = self.overlay.show_undo(bounds, response.result.as_str());
        Ok(())
    }

    /// Writes `text` over `target` through the selection port, and records
    /// the write.
    fn write_selection(&mut self, target: &SelectionSnapshot, text: &str) -> (r: Result<(), VerbalixError>)
        requires
            old(self).well_formed(),
        ensures
            final(self).well_formed(),
            final(self).writes_view() == old(self).writes_view().push((*target, text@)),
            final(self).state_view() == old(self).state_view(),
            final(self).journal_view() == old(self).journal_view(),
            final(self).presentation_view() == old(self).presentation_view(),
            final(self).active_view() == old(self).active_view(),
            final(self).next_serial_view() == old(self).next_serial_view(),
    {
        let r = self.selection.replace(target, text);
        self.writes = Ghost(self.writes@.push((*target, text@)));
        r
    }

    /// Asks the selection port to put back the original text of `target`,
    /// where `transformed_text` stands now, and records the request.
    fn restore_selection(&mut self, target: &SelectionSnapshot, transformed_text: &str) -> (r: Result<
        (),
        VerbalixError,
    >)
        requires
            old(self).well_formed(),
        ensures
            final(self).well_formed(),
            final(self).restores_view() == old(self).restores_view().push((*target, transformed_text@)),
            final(self).writes_view() == old(self).writes_view(),
            final(self).state_view() == old(self).state_view(),
            final(self).journal_view() == old(self).journal_view(),
            final(self).presentation_view() == old(self).presentation_view(),
            final(self).active_view() == old(self).active_view(),
            final(self).next_serial_view() == old(self).next_serial_view(),
    {
        let r = self.selection.restore(target, transformed_text);
        self.restores = Ghost(self.restores@.push((*target, transformed_text@)));
        r
    }

    /// Sends a pinned transformation back to its toolbar when it is pinned
    /// under `request_id`.
    fn recover_request(&mut self, request_id: u128)
        requires
            old(self).well_formed(),
        ensures
            final(self).well_formed(),
            final(self).state_view() == recovered(old(self).state_view(), request_id),
            final(self).journal_view() == old(self).journal_view(),
            final(self).presentation_view() == old(self).presentation_view(),
            final(self).active_view() == old(self).active_view(),
            final(self).next_serial_view() == old(self).next_serial_view(),
            final(self).writes_view() == old(self).writes_view(),
    {
        let back = match &self.state {
            SelectionState::Processing { snapshot, request_id: active } => if *active == request_id {
                Some(snapshot.clone())
            } else {
                None
            },
            _ => None,
        };
        if let Some(snapshot) = back {
            self.state = SelectionState::ToolbarVisible(snapshot);
        }
    }

    /// Completes a transformation with the backend's answer for `snapshot`
    /// (taken by `transform_target`): a valid answer is published as
    /// `finish_transform` states and returned; an error of the backend or a
    /// refused answer sends the pinned capture back to its toolbar and is
    /// returned.
    /// What completing a transformation with `response` does: an error of
    /// the backend, or a refused answer, sends the pinned capture back to its
    /// toolbar and is returned (a well-formed answer for a request no longer
    /// pinned is refused with `StaleSelection`, a malformed one with
    /// `InvalidResponse`); a published answer is returned and leads to the
    /// state `answered` gives. A valid answer for a writable capture without
    /// preview is written over the pinned capture, as exactly the answer's
    /// text; nothing else is written.
    pub open spec fn transform_completed(
        before: Self,
        after: Self,
        request: TransformRequest,
        snapshot: SelectionSnapshot,
        response: Result<TransformResult, VerbalixError>,
        preview_writable: bool,
        r: Result<TransformResult, VerbalixError>,
    ) -> bool {
        &&& match response {
            Err(e) => r == Err::<TransformResult, VerbalixError>(e) && after.state_view()
                == recovered(before.state_view(), request.request_id),
            Ok(answer) => match r {
                Ok(x) => x == answer && answer.request_id == request.request_id && trim(
                    answer.result@,
                ).len() > 0 && processing_target(before.state_view(), snapshot, request.request_id)
                    is Some && after.state_view() == answered(
                    processing_target(before.state_view(), snapshot, request.request_id)->0,
                    request.request_id,
                    answer.result,
                    preview_writable,
                ),
                Err(e) => after.state_view() == recovered(
                    before.state_view(),
                    request.request_id,
                ) && (answer.request_id != request.request_id || trim(answer.result@).len()
                    == 0 ==> e == VerbalixError::InvalidResponse) && (answer.request_id
                    == request.request_id && trim(answer.result@).len() > 0 && processing_target(
                    before.state_view(),
                    snapshot,
                    request.request_id,
                ) is None ==> e == VerbalixError::StaleSelection),
            },
        }
        &&& after.writes_view() == match response {
            Ok(a) => match written_target(before.state_view(), snapshot, request, a, preview_writable) {
                Some(t) => before.writes_view().push((t, a.result@)),
                None => before.writes_view(),
            },
            Err(_) => before.writes_view(),
        }
    }

    pub fn complete_transform(
        &mut self,
        request: &TransformRequest,
        snapshot: &SelectionSnapshot,
        response: Result<TransformResult, VerbalixError>,
        preview_writable: bool,
    ) -> (r: Result<TransformResult, VerbalixError>)
        requires
            old(self).well_formed(),
        ensures
            final(self).well_formed(),
            final(self).journal_view() == old(self).journal_view(),
            final(self).presentation_view() == old(self).presentation_view(),
            final(self).active_view() == old(self).active_view(),
            Self::transform_completed(
                *old(self),
                *final(self),
                *request,
                *snapshot,
                response,
                preview_writable,
                r,
            ),
    {
        let answer = match response {
            Ok(answer) => answer,
            Err(error) => {
                self.recover_request(request.request_id);
                return Err(error);
            },
        };
        match self.finish_transform(request, snapshot, &answer, preview_writable) {
            Ok(()) => Ok(answer),
            Err(error) => {
                self.recover_request(request.request_id);
                Err(error)
            },
        }
    }

    /// Gives up request `request_id`: its pinned capture goes back to the toolbar.
    pub fn abort_transform(&mut self, request_id: u128) -> (r: Result<(), VerbalixError>)
        requires
            old(self).well_formed(),
        ensures
            r is Ok,
            final(self).well_formed(),
            final(self).state_view() == recovered(old(self).state_view(), request_id),
            final(self).presentation_view() == old(self).presentation_view(),
            final(self).active_view() == old(self).active_view(),
            final(self).journal_view() == old(self).journal_view(),
    {
        self.recover_request(request_id);
        Ok(())
    }

    /// Writes the previewed result of request `request_id` into the
    /// document and returns it; the state becomes `Applied` and an undo
    /// affordance is offered (its failure is not reported). Without that
    /// preview, `StaleSelection`; a failed write changes nothing.
    pub fn apply_preview(&mut self, request_id: u128) -> (r: Result<String, VerbalixError>)
        requires
            old(self).well_formed(),
        ensures
            final(self).well_formed(),
            final(self).journal_view() == old(self).journal_view(),
            final(self).presentation_view() == old(self).presentation_view(),
            final(self).active_view() == old(self).active_view(),
            match old(self).state_view() {
                SelectionState::PreviewVisible { snapshot, request_id: rid, result } if rid == request_id => match r {
                    Ok(x) => x == result && final(self).state_view() == (SelectionState::Applied {
                        snapshot,
                        transformed_text: result,
                        mutation_id: None,
                    }),
                    Err(_) => final(self).state_view() == old(self).state_view(),
                },
                _ => r == Err::<String, VerbalixError>(VerbalixError::StaleSelection)
                    && final(self).state_view() == old(self).state_view(),
            },
            final(self).writes_view() == match old(self).state_view() {
                SelectionState::PreviewVisible { snapshot, request_id: rid, result } if rid == request_id =>
                    old(self).writes_view().push((snapshot, result@)),
                _ => old(self).writes_view(),
            },
    {
        let (snapshot, result) = match &self.state {
            SelectionState::PreviewVisible { snapshot, request_id: active, result } => if *active
                == request_id {
                (snapshot.clone(), result.clone())
            } else {
                return Err(VerbalixError::StaleSelection);
            },
            _ => return Err(VerbalixError::StaleSelection),
        };
        self.write_selection(&snapshot, result.as_str())?;
        let bounds = snapshot.bounds;
        self.state = SelectionState::Applied {
            snapshot,
            transformed_text: result.clone(),
            mutation_id: None,
        };
        let _feedback = self.overlay.show_undo(bounds, result.as_str());
        Ok(result)
    }

    /// Restores the text replaced by `transformed_text` and leaves for idle.
    /// Without that applied result, `StaleSelection`; a failed restore
    /// changes nothing.
    pub fn undo(&mut self, transformed_text: &str) -> (r: Result<(), VerbalixError>)
        requires
            old(self).well_formed(),
            old(self).next_serial_view() < u64::MAX,
        ensures
            final(self).well_formed(),
            final(self).journal_view() == old(self).journal_view(),
            match old(self).state_view() {
                SelectionState::Applied { transformed_text: active, .. } if active@ == transformed_text@ =>
                    final(self).state_view() == old(self).state_view() || (final(self).state_view()
                    == SelectionState::Idle && final(self).presentation_view() is None
                    && final(self).active_view() is None),
                _ => r == Err::<(), VerbalixError>(VerbalixError::StaleSelection)
                    && final(self).state_view() == old(self).state_view(),
            },
            r is Ok ==> final(self).state_view() == SelectionState::Idle,
            final(self).restores_view() == match old(self).state_view() {
                SelectionState::Applied { snapshot, transformed_text: active, .. } if active@
                    == transformed_text@ => old(self).restores_view().push((snapshot, active@)),
                _ => old(self).restores_view(),
            },
    {
        let snapshot = match &self.state {
            SelectionState::Applied { snapshot, transformed_text: active, .. } => if same_text(
                active.as_str(),
                transformed_text,
            ) {
                snapshot.clone()
            } else {
                return Err(VerbalixError::StaleSelection);
            },
            _ => return Err(VerbalixError::StaleSelection),
        };
        self.restore_selection(&snapshot, transformed_text)?;
        self.dispatch(SelectionEvent::Invalidated)
    }

    /// The pinned capture and the serial of its lease, when request
    /// `request_id` is pinned to `snapshot`'s target.
    pub fn active_processing(&self, snapshot: &SelectionSnapshot, request_id: u128) -> (r: Result<
        (SelectionSnapshot, u64),
        VerbalixError,
    >)
        ensures
            match processing_target(self.state_view(), *snapshot, request_id) {
                Some(cur) => match self.active_view() {
                    Some(a) => if a.1 == request_id && same_target_spec(a.0, cur) {
                        r == Ok::<(SelectionSnapshot, u64), VerbalixError>((cur, a.2))
                    } else {
                        r == Err::<(SelectionSnapshot, u64), VerbalixError>(VerbalixError::StaleSelection)
                    },
                    None => r == Err::<(SelectionSnapshot, u64), VerbalixError>(VerbalixError::StaleSelection),
                },
                None => r == Err::<(SelectionSnapshot, u64), VerbalixError>(VerbalixError::StaleSelection),
            },
    {
        let current = match &self.state {
            SelectionState::Processing { snapshot: current, request_id: active_request } => if *active_request
                == request_id && current.same_target(snapshot) {
                current.clone()
            } else {
                return Err(VerbalixError::StaleSelection);
            },
            _ => return Err(VerbalixError::StaleSelection),
        };
        match &self.active_transform {
            Some(active) => if active.request_id == request_id && active.snapshot.same_target(&current) {
                Ok((current, active.serial))
            } else {
                Err(VerbalixError::StaleSelection)
            },
            None => Err(VerbalixError::StaleSelection),
        }
    }

    /// Whether the lease `guard` is the live lease of request `request_id`
    /// pinned to `snapshot`'s target.
    fn pinned_lease_matches(&self, snapshot: &SelectionSnapshot, request_id: u128, guard: u64) -> (b: bool)
        requires
            self.well_formed(),
        ensures
            b == (self.active_view() matches Some(a) && a.1 == request_id && same_target_spec(
                a.0,
                *snapshot,
            ) && a.2 == guard),
    {
        match &self.active_transform {
            Some(active) => active.request_id == request_id && active.snapshot.same_target(snapshot)
                && active.serial == guard && active.lease.may_publish(),
            None => false,
        }
    }

    /// Moves a transformation still pinned under `request_id` to `snapshot`'s
    /// target (or its preview), whose live lease is `guard`, to the committed
    /// state; returns whether it did. A superseded request commits nothing.
    pub fn commit_if_current(
        &mut self,
        snapshot: &SelectionSnapshot,
        request_id: u128,
        guard: u64,
        target: CommitTarget,
    ) -> (done: bool)
        requires
            old(self).well_formed(),
        ensures
            final(self).well_formed(),
            done == (pinned_to(old(self).state_view(), *snapshot, request_id) && (
            old(self).active_view() matches Some(a) && a.1 == request_id && same_target_spec(
                a.0,
                *snapshot,
            ) && a.2 == guard)),
            final(self).state_view() == (if done {
                committed(target, *snapshot, request_id)
            } else {
                old(self).state_view()
            }),
            final(self).presentation_view() == old(self).presentation_view(),
            final(self).active_view() == old(self).active_view(),
            final(self).journal_view() == old(self).journal_view(),
            final(self).next_serial_view() == old(self).next_serial_view(),
    {
        let state_matches = match &self.state {
            SelectionState::Processing { snapshot: current, request_id: active_request } => *active_request
                == request_id && current.same_target(snapshot),
            SelectionState::PreviewVisible { snapshot: current, request_id: active_request, .. } =>
                *active_request == request_id && current.same_target(snapshot),
            _ => false,
        };
        let active_matches = self.pinned_lease_matches(snapshot, request_id, guard);
        if !state_matches || !active_matches {
            return false;
        }
        self.state = match target {
            CommitTarget::ResultVisible => SelectionState::ResultVisible(snapshot.clone()),
            CommitTarget::PreviewVisible(result) => SelectionState::PreviewVisible {
                snapshot: snapshot.clone(),
                request_id,
                result,
            },
        };
        true
    }

    /// `commit_if_current` to a result note.
    pub fn commit_result_visible(&mut self, snapshot: &SelectionSnapshot, request_id: u128, guard: u64) -> (done: bool)
        requires
            old(self).well_formed(),
        ensures
            final(self).well_formed(),
            done == (pinned_to(old(self).state_view(), *snapshot, request_id) && (
            old(self).active_view() matches Some(a) && a.1 == request_id && same_target_spec(
                a.0,
                *snapshot,
            ) && a.2 == guard)),
            final(self).state_view() == (if done {
                SelectionState::ResultVisible(*snapshot)
            } else {
                old(self).state_view()
            }),
            final(self).active_view() == old(self).active_view(),
            final(self).presentation_view() == old(self).presentation_view(),
    {
        self.commit_if_current(snapshot, request_id, guard, CommitTarget::ResultVisible)
    }

    /// `commit_if_current` to a preview of `result`.
    pub fn commit_preview_visible(
        &mut self,
        snapshot: &SelectionSnapshot,
        request_id: u128,
        result: &str,
        guard: u64,
    ) -> (done: bool)
        requires
            old(self).well_formed(),
        ensures
            final(self).well_formed(),
            done == (pinned_to(old(self).state_view(), *snapshot, request_id) && (
            old(self).active_view() matches Some(a) && a.1 == request_id && same_target_spec(
                a.0,
                *snapshot,
            ) && a.2 == guard)),
            done ==> (final(self).state_view() matches SelectionState::PreviewVisible { snapshot: s, request_id: rid, result: res }
                && s == *snapshot && rid == request_id && res@ == result@),
            !done ==> final(self).state_view() == old(self).state_view(),
            final(self).active_view() == old(self).active_view(),
            final(self).presentation_view() == old(self).presentation_view(),
    {
        let owned = result.to_owned();
        self.commit_if_current(snapshot, request_id, guard, CommitTarget::PreviewVisible(owned))
    }

    /// Journals a mutation the platform reports as performed, given what the
    /// platform reconciled of it: nothing, or a confirmed record that agrees
    /// with the receipt, the capture and the result, journals it under a new
    /// lease serial and returns the record; any other reconciled record gives
    /// `LocalFailure` and changes nothing.
    pub fn record_reconciled_mutation(
        &mut self,
        reconciled: Option<MutationProjection>,
        receipt: MutationReceipt,
        snapshot: SelectionSnapshot,
        result: String,
    ) -> (r: Result<MutationRecord, VerbalixError>)
        requires
            old(self).well_formed(),
            old(self).next_serial_view() < u64::MAX,
        ensures
            final(self).well_formed(),
            final(self).state_view() == old(self).state_view(),
            final(self).presentation_view() == old(self).presentation_view(),
            final(self).active_view() == old(self).active_view(),
            match reconciled {
                None => true,
                Some(p) => projection_agrees(p, receipt, snapshot, result@),
            } ==> {
                &&& r == Ok::<MutationRecord, VerbalixError>(
                    MutationRecord {
                        receipt,
                        snapshot,
                        transformed_text: result,
                        undo_lease: old(self).next_serial_view(),
                        restored: false,
                    },
                )
                &&& final(self).journal_view().records_view() == recorded(
                    old(self).journal_view().records_view(),
                    r->Ok_0,
                )
                &&& final(self).next_serial_view() == old(self).next_serial_view() + 1
                &&& Self::fresh_undo_lease(
                    old(self).next_serial_view(),
                    final(self).next_serial_view(),
                    final(self).presentation_view(),
                )
            },
            !match reconciled {
                None => true,
                Some(p) => projection_agrees(p, receipt, snapshot, result@),
            } ==> r == Err::<MutationRecord, VerbalixError>(VerbalixError::LocalFailure)
                && final(self).journal_view() == old(self).journal_view()
                && final(self).next_serial_view() == old(self).next_serial_view(),
    {
        if !reconciliation_agrees(&reconciled, receipt, &snapshot, result.as_str()) {
            return Err(VerbalixError::LocalFailure);
        }
        let serial = self.take_serial();
        let ghost s0 = self.mutation_journal.records_view();
        let rec = self.mutation_journal.record(receipt, snapshot, result, serial);
        proof {
            let s1 = self.mutation_journal.records_view();
            assert forall|i: int| 0 <= i < s1.len() implies Self::fresh_undo_lease(
                #[trigger] s1[i].undo_lease,
                self.next_serial,
                self.presentation_view(),
            ) by {
                lemma_recorded_from(s0, rec, i);
                if s1[i] != rec {
                    let m = choose|m: int| 0 <= m < s0.len() && s0[m] == #[trigger] s1[i];
                    assert(Self::fresh_undo_lease(
                        s0[m].undo_lease,
                        old(self).next_serial,
                        old(self).presentation_view(),
                    ));
                }
            }
        }
        Ok(rec)
    }

    /// Journals a mutation the platform reports as performed: the platform
    /// is asked what it reconciled of the mutation, and that answer is taken
    /// as `record_reconciled_mutation` states; an error of the platform is
    /// returned and changes nothing.
    pub fn record_confirmed_mutation(
        &mut self,
        receipt: MutationReceipt,
        snapshot: SelectionSnapshot,
        result: String,
    ) -> (r: Result<MutationRecord, VerbalixError>)
        requires
            old(self).well_formed(),
            old(self).next_serial_view() < u64::MAX,
        ensures
            final(self).well_formed(),
            final(self).state_view() == old(self).state_view(),
            final(self).presentation_view() == old(self).presentation_view(),
            final(self).active_view() == old(self).active_view(),
            r matches Ok(rec) ==> rec == (MutationRecord {
                receipt,
                snapshot,
                transformed_text: result,
                undo_lease: old(self).next_serial_view(),
                restored: false,
            }) && final(self).journal_view().records_view() == recorded(
                old(self).journal_view().records_view(),
                rec,
            ),
            r is Err ==> final(self).journal_view() == old(self).journal_view(),
            r matches Ok(rec) ==> Self::fresh_undo_lease(
                rec.undo_lease,
                final(self).next_serial_view(),
                final(self).presentation_view(),
            ),
    {
        let reconciled = self.selection.reconcile_mutation(receipt.id)?;
        self.record_reconciled_mutation(reconciled, receipt, snapshot, result)
    }

    /// Commits a journaled mutation of request `mutation.receipt.request_id`
    /// pinned to `snapshot`'s target under the live lease `guard`: that
    /// lease is cancelled, the undo lease of the record becomes the pinned
    /// lease, the state becomes `Applied` and the undo lease serial is
    /// returned. A superseded request, or a record whose undo lease is not a
    /// fresh serial of this coordinator, commits nothing; the records this
    /// coordinator journals always have fresh undo leases
    /// (`lemma_journaled_undo_lease_is_fresh`), so only a record made
    /// elsewhere is refused for that.
    pub fn commit_applied(
        &mut self,
        snapshot: &SelectionSnapshot,
        result: &str,
        guard: u64,
        mutation: &MutationRecord,
    ) -> (r: Option<u64>)
        requires
            old(self).well_formed(),
        ensures
            final(self).well_formed(),
            final(self).journal_view() == old(self).journal_view(),
            final(self).presentation_view() == old(self).presentation_view(),
            ({
                let rid = mutation.receipt.request_id;
                let fits = pinned_to(old(self).state_view(), *snapshot, rid) && (
                old(self).active_view() matches Some(a) && a.1 == rid && same_target_spec(
                    a.0,
                    *snapshot,
                ) && a.2 == guard) && mutation.undo_lease < old(self).next_serial_view()
                    && !(old(self).presentation_view() matches Some(p) && p.1 == mutation.undo_lease);
                if fits {
                    &&& r == Some(mutation.undo_lease)
                    &&& final(self).active_view() == Some((*snapshot, rid, mutation.undo_lease))
                    &&& final(self).state_view() matches SelectionState::Applied { snapshot: s, transformed_text: t, mutation_id: m }
                        && s == *snapshot && t@ == result@ && m == Some(mutation.receipt.id)
                } else {
                    &&& r is None
                    &&& final(self).state_view() == old(self).state_view()
                    &&& final(self).active_view() == old(self).active_view()
                }
            }),
    {
        let request_id = mutation.receipt.request_id;
        let state_matches = match &self.state {
            SelectionState::Processing { snapshot: current, request_id: active_request } => *active_request
                == request_id && current.same_target(snapshot),
            SelectionState::PreviewVisible { snapshot: current, request_id: active_request, .. } =>
                *active_request == request_id && current.same_target(snapshot),
            _ => false,
        };
        let active_matches = self.pinned_lease_matches(snapshot, request_id, guard);
        let fresh = mutation.undo_lease < self.next_serial && match &self.presentation {
            Some(p) => p.serial != mutation.undo_lease,
            None => true,
        };
        if !state_matches || !active_matches || !fresh {
            return None;
        }
        self.cancel_active_transform();
        let undo_lease = mutation.undo_lease;
        self.active_transform = Some(ActiveTransform {
            snapshot: snapshot.clone(),
            request_id,
            lease: TransformLease::new(snapshot.id, request_id),
            serial: undo_lease,
        });
        self.state = SelectionState::Applied {
            snapshot: snapshot.clone(),
            transformed_text: result.to_owned(),
            mutation_id: Some(mutation.receipt.id),
        };
        Some(undo_lease)
    }

    /// Ends an applied mutation after its undo: when `transformed_text` is
    /// the applied result for `snapshot`'s target and `guard` is its live
    /// undo lease, the lease is cancelled and the state becomes idle.
    pub fn commit_undo(&mut self, snapshot: &SelectionSnapshot, transformed_text: &str, guard: u64) -> (done: bool)
        requires
            old(self).well_formed(),
        ensures
            final(self).well_formed(),
            final(self).journal_view() == old(self).journal_view(),
            final(self).presentation_view() == old(self).presentation_view(),
            done == ((old(self).state_view() matches SelectionState::Applied { snapshot: cur, transformed_text: t, .. }
                && t@ == transformed_text@ && same_target_spec(cur, *snapshot)) && (
            old(self).active_view() matches Some(a) && same_target_spec(a.0, *snapshot) && a.2 == guard)),
            done ==> final(self).state_view() == SelectionState::Idle && final(self).active_view() is None,
            !done ==> final(self).state_view() == old(self).state_view() && final(self).active_view()
                == old(self).active_view(),
    {
        let state_matches = match &self.state {
            SelectionState::Applied { snapshot: current, transformed_text: active, .. } => same_text(
                active.as_str(),
                transformed_text,
            ) && current.same_target(snapshot),
            _ => false,
        };
        let active_matches = match &self.active_transform {
            Some(active) => active.snapshot.same_target(snapshot) && active.serial == guard,
            None => false,
        };
        if !state_matches || !active_matches {
            return false;
        }
        self.cancel_active_transform();
        self.state = SelectionState::Idle;
        true
    }

    /// Writes `result` over `snapshot` under the lease `guard` with a
    /// mutation id chosen here. When the write reports an error, the
    /// platform is asked whether that very mutation was nevertheless
    /// confirmed for this target and text; if so its receipt is returned,
    /// otherwise the write's error. The write is handed the lease held under
    /// `guard`, or a revoked lease when none is held: a held active lease is
    /// claimed, a lease that is not active writes nothing, and a lease the
    /// port cancelled is given up; no other lease is touched.
    pub fn execute_replace(&mut self, snapshot: &SelectionSnapshot, result: &str, guard: u64) -> (r: Result<
        MutationReceipt,
        VerbalixError,
    >)
        requires
            old(self).well_formed(),
        ensures
            final(self).well_formed(),
            final(self).state_view() == old(self).state_view(),
            final(self).journal_view() == old(self).journal_view(),
            final(self).next_serial_view() == old(self).next_serial_view(),
            final(self).presentation_view() == old(self).presentation_view() || (old(
                self,
            ).presentation_view() matches Some(p) && p.1 == guard && final(self).presentation_view() is None),
            final(self).active_view() == old(self).active_view() || (old(self).active_view() matches Some(a)
                && a.2 == guard && final(self).active_view() is None),
            lease_after_write(old(self).held_lease(guard), final(self).held_lease(guard)),
            r matches Ok(receipt) ==> written_receipt(old(self).held_lease(guard), receipt, *snapshot)
                || reconciled_confirmation(receipt, *snapshot, result@),
    {
        let mutation_id = fresh_id();
        let mut lease = match &self.active_transform {
            Some(active) if active.serial == guard => active.lease,
            _ => match &self.presentation {
                Some(p) if p.serial == guard => p.guard,
                _ => {
                    let mut revoked = TransformLease::new(snapshot.id, 0);
                    revoked.cancel();
                    revoked
                },
            },
        };
        let written = self.selection.replace_guarded_with_id(snapshot, result, &mut lease, mutation_id);
        self.settle_lease(guard, lease);
        match written {
            Ok(receipt) => Ok(receipt),
            Err(error) => {
                let reconciled = self.selection.reconcile_mutation(mutation_id)?;
                recovered_receipt(reconciled, snapshot, result, error)
            },
        }
    }

    /// Takes back a lease handed to a port: the held lease with this serial
    /// adopts the port's claim, or is given up when the port cancelled it or
    /// handed back a lease for another capture or request.
    fn settle_lease(&mut self, serial: u64, lease: TransformLease)
        requires
            old(self).well_formed(),
        ensures
            final(self).well_formed(),
            final(self).state_view() == old(self).state_view(),
            final(self).journal_view() == old(self).journal_view(),
            final(self).next_serial_view() == old(self).next_serial_view(),
            final(self).active_view() == (if old(self).active_view() matches Some(a) && a.2 == serial
                && !(lease.publishable() && lease.snapshot_view() == a.0.id && lease.request_view()
                == a.1) {
                None
            } else {
                old(self).active_view()
            }),
            final(self).presentation_view() == (if old(self).presentation_view() matches Some(p)
                && p.1 == serial && !(lease.publishable() && lease.snapshot_view() == p.0.id
                && lease.request_view() == 0) {
                None
            } else {
                old(self).presentation_view()
            }),
            final(self).held_lease(serial) == (if old(self).held_lease(serial) matches Some(h)
                && lease.publishable() && lease.snapshot_view() == h.snapshot_view()
                && lease.request_view() == h.request_view() {
                Some(lease)
            } else {
                None::<TransformLease>
            }),
    {
        let keep = lease.may_publish();
        let mut drop_active = false;
        if let Some(active) = &mut self.active_transform {
            if active.serial == serial {
                if keep && lease.owns(active.snapshot.id, active.request_id) {
                    active.lease = lease;
                } else {
                    drop_active = true;
                }
            }
        }
        if drop_active {
            self.cancel_active_transform();
        }
        let mut drop_presentation = false;
        if let Some(p) = &mut self.presentation {
            if p.serial == serial {
                if keep && lease.owns(p.snapshot.id, 0) {
                    p.guard = lease;
                } else {
                    drop_presentation = true;
                }
            }
        }
        if drop_presentation {
            self.cancel_presentation();
        }
    }
}

/// Every record the coordinator holds in its journal has a fresh undo
/// lease: issued before the next serial and not the presented capture's.
pub proof fn lemma_journaled_undo_lease_is_fresh<S: SelectionPort, O: OverlayPort>(
    c: SelectionCoordinator<S, O>,
    i: int,
)
    requires
        c.well_formed(),
        0 <= i < c.journal_view().records_view().len(),
    ensures
        SelectionCoordinator::<S, O>::fresh_undo_lease(
            c.journal_view().records_view()[i].undo_lease,
            c.next_serial_view(),
            c.presentation_view(),
        ),
{
}

/// A transformation applied in place writes exactly its answer: when
/// completing it returns the backend's answer and leaves the selection
/// `Applied`, the coordinator made one write, over the capture the state
/// holds, carrying the returned answer's text, which is also the text the
/// state records as applied. A returned answer shown as a note or a
/// preview writes nothing.
pub proof fn lemma_applied_answer_is_written<S: SelectionPort, O: OverlayPort>(
    before: SelectionCoordinator<S, O>,
    after: SelectionCoordinator<S, O>,
    request: TransformRequest,
    snapshot: SelectionSnapshot,
    response: Result<TransformResult, VerbalixError>,
    preview_writable: bool,
    r: Result<TransformResult, VerbalixError>,
)
    requires
        SelectionCoordinator::<S, O>::transform_completed(
            before,
            after,
            request,
            snapshot,
            response,
            preview_writable,
            r,
        ),
        r is Ok,
    ensures
        after.state_view() is Applied ==> after.writes_view().len() == before.writes_view().len() + 1,
        after.state_view() matches SelectionState::Applied { snapshot: s, transformed_text: t, .. }
            ==> after.writes_view().last() == (s, t@) && t@ == r->Ok_0.result@,
        !(after.state_view() is Applied) ==> after.writes_view() == before.writes_view(),
{
}

/// A new capture revokes the lease of the capture presented before it: that
/// lease never publishes again.
pub proof fn lemma_capture_revokes_presentation<S: SelectionPort, O: OverlayPort>(
    before: SelectionCoordinator<S, O>,
    after: SelectionCoordinator<S, O>,
    snapshot: SelectionSnapshot,
    serial: u64,
)
    requires
        before.well_formed(),
        SelectionCoordinator::<S, O>::capture_step(before, after, snapshot),
        before.new_target(snapshot),
        before.presentation_view() matches Some(p) && p.1 == serial,
    ensures
        !after.publishes(serial),
{
    before.lemma_serials_issued();
}

/// A capture of another target revokes the lease of the pinned
/// transformation: its result can no longer be published or written.
pub proof fn lemma_capture_revokes_other_transform<S: SelectionPort, O: OverlayPort>(
    before: SelectionCoordinator<S, O>,
    after: SelectionCoordinator<S, O>,
    snapshot: SelectionSnapshot,
    serial: u64,
)
    requires
        before.well_formed(),
        SelectionCoordinator::<S, O>::capture_step(before, after, snapshot),
        before.new_target(snapshot),
        before.active_view() matches Some(a) && a.2 == serial && !same_target_spec(a.0, snapshot),
    ensures
        !after.publishes(serial),
{
    before.lemma_serials_issued();
}

/// Giving up a request returns its pinned capture to the toolbar and leaves
/// every other state as it was.
pub proof fn lemma_abort_returns_to_toolbar(s: SelectionState, request_id: u128)
    ensures
        (s matches SelectionState::Processing { snapshot, request_id: rid } && rid == request_id)
            ==> recovered(s, request_id) == SelectionState::ToolbarVisible(state_snapshot(s)->0),
        !(s matches SelectionState::Processing { request_id: rid, .. } && rid == request_id)
            ==> recovered(s, request_id) == s,
{
}

/// A refresh asked for by the interface: nothing while the runtime is
/// paused; otherwise the selection is captured again and, when that gives a
/// capture, its debounce counts as elapsed at once.
pub fn refresh_unless_paused<S: SelectionPort, O: OverlayPort>(
    coordinator: &mut SelectionCoordinator<S, O>,
    pause: &RuntimePause,
) -> (r: Result<Option<SelectionSnapshot>, VerbalixError>)
    requires
        old(coordinator).well_formed(),
        old(coordinator).next_serial_view() + 1 < u64::MAX,
    ensures
        final(coordinator).well_formed(),
        !pause.paused_view() ==> !(r matches Ok(None)),
        r matches Ok(Some(s)) ==> state_snapshot(final(coordinator).state_view()) == Some(s),
        pause.paused_view() ==> (r matches Ok(None) && final(coordinator).state_view() == old(
            coordinator,
        ).state_view() && final(coordinator).presentation_view() == old(
            coordinator,
        ).presentation_view() && final(coordinator).active_view() == old(coordinator).active_view()),
{
    if pause.is_paused() {
        return Ok(None);
    }
    let snapshot = coordinator.refresh_selection()?;
    if let Some(s) = &snapshot {
        coordinator.dispatch(SelectionEvent::DebounceElapsed(s.id))?;
    }
    Ok(snapshot)
}

/// Where an error about the selection is shown: over the current capture,
/// else, while an action is running, where the last capture was.
pub fn error_bounds_with<S: SelectionPort, O: OverlayPort>(
    coordinator: &SelectionCoordinator<S, O>,
    pause: &RuntimePause,
    last_known: Option<Rect>,
) -> (r: Option<Rect>)
    ensures
        state_snapshot(coordinator.state_view()) matches Some(s) ==> r == Some(s.bounds),
        state_snapshot(coordinator.state_view()) is None ==> (r is None || r == last_known),
        state_snapshot(coordinator.state_view()) is None && pause.in_flight_view() > 0 ==> r
            == last_known,
{
    match coordinator.current_snapshot() {
        Some(s) => Some(s.bounds),
        None => if pause.is_action_in_flight() {
            last_known
        } else {
            None
        },
    }
}

} // verus!
