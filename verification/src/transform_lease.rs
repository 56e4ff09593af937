//! Leases that pin a transformation to one capture: the write into the
//! document can be claimed once, and cancelling the lease revokes an
//! unclaimed write and every visual publication.
use vstd::prelude::*;

verus! {

/// The write side of a lease.
#[derive(Clone, Copy, Debug, PartialEq, Eq, Structural)]
pub enum WritePhase {
    Active,
    Claimed,
    Cancelled,
}

/// A lease on (capture, request).
#[derive(Clone, Copy, Debug, PartialEq, Eq, Structural)]
pub struct TransformLease {
    snapshot_id: u128,
    request_id: u128,
    write_phase: WritePhase,
    visual_cancelled: bool,
}

impl TransformLease {
    pub closed spec fn snapshot_view(&self) -> u128 {
        self.snapshot_id
    }

    pub closed spec fn request_view(&self) -> u128 {
        self.request_id
    }

    pub closed spec fn phase_view(&self) -> WritePhase {
        self.write_phase
    }

    /// Whether the lease may still publish visual feedback.
    pub closed spec fn publishable(&self) -> bool {
        !self.visual_cancelled
    }

    pub fn new(snapshot_id: u128, request_id: u128) -> (l: Self)
        ensures
            l.snapshot_view() == snapshot_id,
            l.request_view() == request_id,
            l.phase_view() == WritePhase::Active,
            l.publishable(),
    {
        TransformLease {
            snapshot_id,
            request_id,
            write_phase: WritePhase::Active,
            visual_cancelled: false,
        }
    }

    pub fn snapshot_id(&self) -> (id: u128)
        ensures
            id == self.snapshot_view(),
    {
        self.snapshot_id
    }

    pub fn request_id(&self) -> (id: u128)
        ensures
            id == self.request_view(),
    {
        self.request_id
    }

    /// Whether the lease was issued for this capture and request.
    pub fn owns(&self, snapshot_id: u128, request_id: u128) -> (b: bool)
        ensures
            b == (self.snapshot_view() == snapshot_id && self.request_view() == request_id),
    {
        self.snapshot_id == snapshot_id && self.request_id == request_id
    }

    /// Revokes the write if it was not claimed yet, and every publication.
    pub fn cancel(&mut self)
        ensures
            final(self).phase_view() == (if old(self).phase_view() == WritePhase::Active {
                WritePhase::Cancelled
            } else {
                old(self).phase_view()
            }),
            !final(self).publishable(),
            final(self).snapshot_view() == old(self).snapshot_view(),
            final(self).request_view() == old(self).request_view(),
    {
        if self.write_phase == WritePhase::Active {
            self.write_phase = WritePhase::Cancelled;
        }
        self.visual_cancelled = true;
    }

    /// Claims the write; only the first claim of an uncancelled lease succeeds.
    pub fn try_claim_write(&mut self) -> (claimed: bool)
        ensures
            claimed == (old(self).phase_view() == WritePhase::Active),
            final(self).phase_view() == (if claimed {
                WritePhase::Claimed
            } else {
                old(self).phase_view()
            }),
            final(self).publishable() == old(self).publishable(),
            final(self).snapshot_view() == old(self).snapshot_view(),
            final(self).request_view() == old(self).request_view(),
    {
        if self.write_phase == WritePhase::Active {
            self.write_phase = WritePhase::Claimed;
            true
        } else {
            false
        }
    }

    pub fn may_publish(&self) -> (b: bool)
        ensures
            b == self.publishable(),
    {
        !self.visual_cancelled
    }
}

/// A single-use permission to publish one piece of feedback under a lease.
#[derive(Debug)]
pub struct PublicationPermit {
    claimed: bool,
}

impl PublicationPermit {
    pub fn new() -> (p: Self)
        ensures
            !p.claimed_view(),
    {
        PublicationPermit { claimed: false }
    }

    pub closed spec fn claimed_view(&self) -> bool {
        self.claimed
    }

    pub fn may_publish(&self, lease: &TransformLease) -> (b: bool)
        ensures
            b == lease.publishable(),
    {
        lease.may_publish()
    }

    /// Claims the permit: succeeds once, and only while the lease may publish.
    pub fn try_claim(&mut self, lease: &TransformLease) -> (claimed: bool)
        ensures
            claimed == (!old(self).claimed_view() && lease.publishable()),
            final(self).claimed_view() == (old(self).claimed_view() || claimed),
    {
        if lease.may_publish() && !self.claimed {
            self.claimed = true;
            true
        } else {
            false
        }
    }
}

} // verus!
