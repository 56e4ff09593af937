use verbalix::enrollment::{EnrollmentSample, EnrollmentSession};
use verbalix::error::VerbalixError;

#[test]
fn second_begin_while_recording_is_rejected() {
    let mut s = EnrollmentSession::new();
    assert!(s.begin().is_ok());
    assert!(s.is_recording());
    assert_eq!(s.begin(), Err(VerbalixError::OperationInProgress));
}

#[test]
fn finished_sample_is_taken_exactly_once() {
    let mut s = EnrollmentSession::new();
    s.begin().unwrap();
    s.finish(EnrollmentSample { wav_bytes: vec![1, 2, 3] }).unwrap();
    assert!(!s.is_recording());
    let sample = s.take_sample().unwrap();
    assert_eq!(sample.wav_bytes, vec![1, 2, 3]);
    assert!(matches!(s.take_sample(), Err(VerbalixError::LocalFailure)));
}

#[test]
fn finish_without_recording_fails_and_cancel_resets() {
    let mut s = EnrollmentSession::new();
    assert_eq!(
        s.finish(EnrollmentSample { wav_bytes: vec![] }),
        Err(VerbalixError::LocalFailure)
    );
    s.begin().unwrap();
    s.cancel();
    assert!(!s.is_recording());
    assert!(s.begin().is_ok());
}
