//! The voice-enrollment recording session: at most one recording at a time,
//! and a finished sample can be taken exactly once.
use crate::error::VerbalixError;
use vstd::prelude::*;

verus! {

/// A recorded enrollment sample, as WAV bytes.
pub struct EnrollmentSample {
    pub wav_bytes: Vec<u8>,
}

enum SessionState {
    Idle,
    Recording,
    Done(EnrollmentSample),
    Failed,
}

/// The phase of an enrollment session, with the recorded bytes once done.
pub enum EnrollmentPhase {
    Idle,
    Recording,
    Done(Seq<u8>),
    Failed,
}

pub struct EnrollmentSession {
    state: SessionState,
}

impl EnrollmentSession {
    pub fn new() -> (s: Self)
        ensures
            s.phase() == EnrollmentPhase::Idle,
    {
        EnrollmentSession { state: SessionState::Idle }
    }

    pub closed spec fn phase(&self) -> EnrollmentPhase {
        match self.state {
            SessionState::Idle => EnrollmentPhase::Idle,
            SessionState::Recording => EnrollmentPhase::Recording,
            SessionState::Done(sample) => EnrollmentPhase::Done(sample.wav_bytes@),
            SessionState::Failed => EnrollmentPhase::Failed,
        }
    }

    /// Starts recording, unless a recording is already running; a previous
    /// unclaimed sample is discarded.
    pub fn begin(&mut self) -> (r: Result<(), VerbalixError>)
        ensures
            old(self).phase() is Recording ==> r == Err::<(), VerbalixError>(
                VerbalixError::OperationInProgress,
            ) && final(self).phase() == old(self).phase(),
            !(old(self).phase() is Recording) ==> r is Ok && final(self).phase()
                == EnrollmentPhase::Recording,
    {
        match self.state {
            SessionState::Recording => Err(VerbalixError::OperationInProgress),
            _ => {
                self.state = SessionState::Recording;
                Ok(())
            },
        }
    }

    /// Stores the sample of the running recording.
    pub fn finish(&mut self, sample: EnrollmentSample) -> (r: Result<(), VerbalixError>)
        ensures
            old(self).phase() is Recording ==> r is Ok && final(self).phase()
                == EnrollmentPhase::Done(sample.wav_bytes@),
            !(old(self).phase() is Recording) ==> r == Err::<(), VerbalixError>(
                VerbalixError::LocalFailure,
            ) && final(self).phase() == old(self).phase(),
    {
        match self.state {
            SessionState::Recording => {
                self.state = SessionState::Done(sample);
                Ok(())
            },
            _ => Err(VerbalixError::LocalFailure),
        }
    }

    /// Takes the finished sample, leaving the session idle; in any other
    /// phase nothing changes.
    pub fn take_sample(&mut self) -> (r: Result<EnrollmentSample, VerbalixError>)
        ensures
            match old(self).phase() {
                EnrollmentPhase::Done(bytes) => r matches Ok(s) && s.wav_bytes@ == bytes
                    && final(self).phase() == EnrollmentPhase::Idle,
                _ => r matches Err(e) && e == VerbalixError::LocalFailure && final(self).phase()
                    == old(self).phase(),
            },
    {
        let mut previous = SessionState::Idle;
        std::mem::swap(&mut previous, &mut self.state);
        match previous {
            SessionState::Done(sample) => Ok(sample),
            other => {
                self.state = other;
                Err(VerbalixError::LocalFailure)
            },
        }
    }

    /// Abandons whatever the session held.
    pub fn cancel(&mut self)
        ensures
            final(self).phase() == EnrollmentPhase::Idle,
    {
        self.state = SessionState::Idle;
    }

    pub fn is_recording(&self) -> (b: bool)
        ensures
            b == (self.phase() is Recording),
    {
        match self.state {
            SessionState::Recording => true,
            _ => false,
        }
    }
}

} // verus!
