//! The ports through which the application reaches the platform. They are
//! implemented outside the library (accessibility, overlay windows,
//! clipboard, audio); the library states what it does for every answer a
//! port may give.
use crate::error::VerbalixError;
use crate::ids::fresh_id;
use crate::selection::{MutationProjection, MutationReceipt, Rect, SelectionSnapshot};
use crate::transform_lease::{TransformLease, WritePhase};
use vstd::prelude::*;

verus! {

/// The protocol of a write under a lease, from the lease `before` the call
/// to the lease `after` it: the lease keeps its capture and request; an
/// active lease is claimed first, whatever the write then gives; a lease
/// that is not active writes nothing, stays as it was and gets
/// `StaleSelection`; the receipt of a write names the capture written over
/// and the lease's request.
pub open spec fn guarded_write(
    before: TransformLease,
    after: TransformLease,
    expected: SelectionSnapshot,
    r: Result<MutationReceipt, VerbalixError>,
) -> bool {
    &&& after.snapshot_view() == before.snapshot_view()
    &&& after.request_view() == before.request_view()
    &&& before.phase_view() == WritePhase::Active ==> after.phase_view() == WritePhase::Claimed
    &&& before.phase_view() != WritePhase::Active ==> {
        &&& r == Err::<MutationReceipt, VerbalixError>(VerbalixError::StaleSelection)
        &&& after.phase_view() == before.phase_view()
    }
    &&& r matches Ok(receipt) ==> {
        &&& receipt.snapshot_id == expected.id
        &&& receipt.request_id == before.request_view()
    }
}

/// Reading and writing the selected text of the focused application. The
/// guarded writes hold to `guarded_write` in every implementation.
pub trait SelectionPort {
    fn permission_granted(&self, prompt: bool) -> bool;

    fn capture(&self) -> Result<SelectionSnapshot, VerbalixError>;

    fn replace(&self, expected: &SelectionSnapshot, text: &str) -> Result<(), VerbalixError>;

    fn restore(&self, expected: &SelectionSnapshot, transformed_text: &str) -> Result<
        (),
        VerbalixError,
    >;

    /// Replaces the selection under a lease: the write is claimed first and
    /// a lease that was cancelled or already claimed writes nothing. A
    /// receipt names the capture written over and the lease's request.
    fn replace_guarded(
        &self,
        expected: &SelectionSnapshot,
        text: &str,
        lease: &mut TransformLease,
    ) -> (r: Result<MutationReceipt, VerbalixError>)
        ensures
            guarded_write(*old(lease), *final(lease), *expected, r),
        default_ensures
            final(lease).publishable() == old(lease).publishable(),
    {
        if !lease.try_claim_write() {
            return Err(VerbalixError::StaleSelection);
        }
        self.replace(expected, text)?;
        Ok(MutationReceipt { id: fresh_id(), snapshot_id: expected.id, request_id: lease.request_id() })
    }

    /// Replaces the selection under a lease, with a mutation id chosen by
    /// the caller so that a lost answer can be reconciled.
    fn replace_guarded_with_id(
        &self,
        expected: &SelectionSnapshot,
        text: &str,
        lease: &mut TransformLease,
        mutation_id: u128,
    ) -> (r: Result<MutationReceipt, VerbalixError>)
        ensures
            guarded_write(*old(lease), *final(lease), *expected, r),
    {
        self.replace_guarded(expected, text, lease)
    }

    /// Restores the original text under a lease, claiming the write first;
    /// a lease that was cancelled or already claimed restores nothing.
    fn restore_guarded(
        &self,
        expected: &SelectionSnapshot,
        transformed_text: &str,
        lease: &mut TransformLease,
    ) -> (r: Result<MutationReceipt, VerbalixError>)
        ensures
            guarded_write(*old(lease), *final(lease), *expected, r),
        default_ensures
            final(lease).publishable() == old(lease).publishable(),
    {
        if !lease.try_claim_write() {
            return Err(VerbalixError::StaleSelection);
        }
        self.restore(expected, transformed_text)?;
        Ok(MutationReceipt { id: fresh_id(), snapshot_id: expected.id, request_id: lease.request_id() })
    }

    /// Forgets platform state kept for a capture that will not be used.
    fn discard_snapshot(&self, snapshot_id: u128) {
    }

    /// What the platform knows of a mutation it may have performed.
    fn reconcile_mutation(&self, mutation_id: u128) -> (r: Result<
        Option<MutationProjection>,
        VerbalixError,
    >)
        default_ensures
            r == Ok::<Option<MutationProjection>, VerbalixError>(None),
    {
        Ok(None)
    }
}

/// The floating toolbar, notes, previews and undo affordances.
pub trait OverlayPort {
    fn show_toolbar(&self, bounds: Rect) -> Result<(), VerbalixError>;

    fn show_note(&self, bounds: Rect, text: &str) -> Result<(), VerbalixError>;

    fn show_preview(&self, bounds: Rect, request_id: u128, text: &str) -> Result<(), VerbalixError>;

    fn show_undo(&self, bounds: Rect, text: &str) -> Result<(), VerbalixError>;

    fn hide_all(&self) -> Result<(), VerbalixError>;
}

/// Reading the clipboard for the fallback capture.
pub trait ClipboardPort {
    fn read_text(&self) -> Result<Option<String>, VerbalixError>;
}

/// Playing audio to the user.
pub trait AudioPreviewPort {
    fn play(&self, wav_bytes: Vec<u8>) -> Result<(), VerbalixError>;

    fn stop(&self);
}

/// Whether the virtual microphone driver is present.
#[derive(Clone, Copy, Debug, PartialEq, Eq, Structural)]
pub enum VirtualMicStatus {
    NotInstalled,
    Installed,
    IncompatibleVersion,
}

/// The fill level and the underruns of the virtual microphone.
#[derive(Clone, Copy, Debug, PartialEq, Eq, Structural)]
pub struct VirtualMicMetrics {
    pub buffer_depth: u32,
    pub underruns: u64,
}

/// The virtual microphone that other applications record from.
pub trait VirtualMicOutputPort {
    fn open(&self) -> Result<(), VerbalixError>;

    /// Queues interleaved 16-bit samples recorded at `sample_rate`; the
    /// device brings them to its own rate and format.
    fn enqueue_pcm16(&self, samples: Vec<i16>, sample_rate: u32, channels: u16);

    fn close(&self);

    fn metrics(&self) -> VirtualMicMetrics;
}

} // verus!
