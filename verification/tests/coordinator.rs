use std::cell::RefCell;
use verbalix::coordinator::{
    error_bounds_with, reconciliation_agrees, recovered_receipt, refresh_unless_paused,
    SelectionCoordinator,
};
use verbalix::runtime_pause::RuntimePause;
use verbalix::error::VerbalixError;
use verbalix::ports::{OverlayPort, SelectionPort};
use verbalix::selection::{
    MutationProjection, MutationReceipt, MutationStatus, Rect, SelectionEvent,
    SelectionExtractionStrategy, SelectionSnapshot, TextRange,
};
use verbalix::transform_lease::TransformLease;
use verbalix::transform::{TransformOperation, TransformRequest, TransformResult};

struct FakeSelection {
    snapshot: RefCell<SelectionSnapshot>,
    replacements: RefCell<Vec<String>>,
    fail_write: bool,
}

impl SelectionPort for &FakeSelection {
    fn permission_granted(&self, _prompt: bool) -> bool {
        true
    }

    fn capture(&self) -> Result<SelectionSnapshot, VerbalixError> {
        Ok(self.snapshot.borrow().clone())
    }

    fn replace(&self, _expected: &SelectionSnapshot, text: &str) -> Result<(), VerbalixError> {
        if self.fail_write {
            return Err(VerbalixError::StaleSelection);
        }
        self.replacements.borrow_mut().push(text.to_owned());
        self.snapshot.borrow_mut().text = text.to_owned();
        Ok(())
    }

    fn restore(&self, expected: &SelectionSnapshot, transformed_text: &str) -> Result<(), VerbalixError> {
        if self.snapshot.borrow().text != transformed_text {
            return Err(VerbalixError::StaleSelection);
        }
        self.replacements.borrow_mut().push(expected.text.clone());
        Ok(())
    }
}

#[derive(Default)]
struct FakeOverlay {
    events: RefCell<Vec<String>>,
    fail_result: bool,
}

impl OverlayPort for &FakeOverlay {
    fn show_toolbar(&self, _bounds: Rect) -> Result<(), VerbalixError> {
        self.events.borrow_mut().push("toolbar".to_owned());
        Ok(())
    }

    fn show_note(&self, _bounds: Rect, text: &str) -> Result<(), VerbalixError> {
        if self.fail_result {
            return Err(VerbalixError::LocalFailure);
        }
        self.events.borrow_mut().push(format!("note:{text}"));
        Ok(())
    }

    fn show_preview(&self, _bounds: Rect, _request_id: u128, text: &str) -> Result<(), VerbalixError> {
        self.events.borrow_mut().push(format!("preview:{text}"));
        Ok(())
    }

    fn show_undo(&self, _bounds: Rect, text: &str) -> Result<(), VerbalixError> {
        self.events.borrow_mut().push(format!("undo:{text}"));
        Ok(())
    }

    fn hide_all(&self) -> Result<(), VerbalixError> {
        self.events.borrow_mut().push("hide".to_owned());
        Ok(())
    }
}

fn snapshot(writable: bool) -> SelectionSnapshot {
    SelectionSnapshot::new(
        42,
        "com.editor".to_owned(),
        "Olá 👩🏽‍💻".to_owned(),
        TextRange {
            location: 2,
            length: 9,
        },
        Rect {
            x_bits: 100.0f64.to_bits(),
            y_bits: 200.0f64.to_bits(),
            width_bits: 80.0f64.to_bits(),
            height_bits: 20.0f64.to_bits(),
        },
        writable,
    )
}

fn different_candidate() -> SelectionSnapshot {
    let mut candidate = snapshot(true);
    candidate.pid = 84;
    candidate
}

static NEXT_REQUEST: std::sync::atomic::AtomicU64 = std::sync::atomic::AtomicU64::new(1000);

fn request(text: &str) -> TransformRequest {
    TransformRequest {
        request_id: NEXT_REQUEST.fetch_add(1, std::sync::atomic::Ordering::Relaxed) as u128,
        operation: TransformOperation::Translate,
        text: text.to_owned(),
        preferences: None,
    }
}

type Coordinator<'a> = SelectionCoordinator<&'a FakeSelection, &'a FakeOverlay>;

fn fakes(writable: bool, fail_write: bool, fail_result: bool) -> (FakeSelection, FakeOverlay) {
    (
        FakeSelection {
            snapshot: RefCell::new(snapshot(writable)),
            replacements: RefCell::new(Vec::new()),
            fail_write,
        },
        FakeOverlay {
            events: RefCell::new(Vec::new()),
            fail_result,
        },
    )
}

fn ready<'a>(selection: &'a FakeSelection, overlay: &'a FakeOverlay) -> Coordinator<'a> {
    let mut coordinator = SelectionCoordinator::new(selection, overlay);
    let captured = selection.snapshot.borrow().clone();
    let id = captured.id;
    coordinator.dispatch(SelectionEvent::Candidate(captured)).unwrap();
    coordinator.dispatch(SelectionEvent::DebounceElapsed(id)).unwrap();
    coordinator
}

fn execute(
    coordinator: &mut Coordinator,
    input: TransformRequest,
    preview: bool,
    answer: Option<Result<TransformResult, VerbalixError>>,
) -> Result<TransformResult, VerbalixError> {
    let snapshot_id = coordinator.current_snapshot().unwrap().id;
    coordinator.begin_transform(snapshot_id, input.request_id)?;
    let pinned = coordinator.transform_target(snapshot_id, &input)?;
    let response = answer.unwrap_or(Ok(TransformResult {
        request_id: input.request_id,
        source_language: "pt".to_owned(),
        target_language: Some("en".to_owned()),
        result: "result".to_owned(),
    }));
    coordinator.complete_transform(&input, &pinned, response, preview)
}

#[test]
fn preview_waits_for_explicit_apply() {
    let (selection, overlay) = fakes(true, false, false);
    let mut coordinator = ready(&selection, &overlay);
    let input = request("Olá 👩🏽‍💻");
    let id = input.request_id;
    execute(&mut coordinator, input, true, None).unwrap();
    assert!(selection.replacements.borrow().is_empty());
    coordinator.apply_preview(id).unwrap();
    assert_eq!(selection.replacements.borrow().as_slice(), ["result"]);
    assert!(overlay.events.borrow().contains(&"preview:result".to_owned()));
}

#[test]
fn desktop_flow_reaches_toolbar_preview_apply_and_undo() {
    let (selection, overlay) = fakes(true, false, false);
    let mut coordinator = ready(&selection, &overlay);
    let input = request("Olá 👩🏽‍💻");
    let id = input.request_id;

    execute(&mut coordinator, input, true, None).unwrap();
    coordinator.apply_preview(id).unwrap();
    coordinator.undo("result").unwrap();

    assert_eq!(
        overlay.events.borrow().as_slice(),
        ["toolbar", "preview:result", "undo:result", "hide"]
    );
    assert_eq!(selection.replacements.borrow().as_slice(), ["result", "Olá 👩🏽‍💻"]);
}

#[test]
fn write_failure_recovers_to_toolbar_state() {
    let (selection, overlay) = fakes(true, true, false);
    let mut coordinator = ready(&selection, &overlay);
    let first = request("Olá 👩🏽‍💻");
    assert!(execute(&mut coordinator, first, false, None).is_err());
    let second = request("Olá 👩🏽‍💻");
    assert!(execute(&mut coordinator, second, true, None).is_ok());
}

#[test]
fn overlay_failure_recovers_to_toolbar_state() {
    let (selection, overlay) = fakes(false, false, true);
    let mut coordinator = ready(&selection, &overlay);
    let first = request("Olá 👩🏽‍💻");
    assert!(execute(&mut coordinator, first, false, None).is_err());
    let second = request("Olá 👩🏽‍💻");
    assert!(execute(&mut coordinator, second, false, None).is_err());
}

#[test]
fn read_only_marker_result_uses_note_without_attempting_mutation() {
    let (selection, overlay) = fakes(false, false, false);
    let mut coordinator = ready(&selection, &overlay);
    let input = request("Olá 👩🏽‍💻");

    execute(&mut coordinator, input, false, None).unwrap();

    assert!(selection.replacements.borrow().is_empty());
    assert_eq!(overlay.events.borrow().as_slice(), ["toolbar", "note:result"]);
}

#[test]
fn oversized_selection_is_invalidated() {
    let (selection, overlay) = fakes(true, false, false);
    let mut coordinator = ready(&selection, &overlay);
    selection.snapshot.borrow_mut().text = "a".repeat(12_001);
    assert!(matches!(coordinator.refresh_selection(), Err(VerbalixError::TextTooLong)));
    assert!(overlay.events.borrow().contains(&"hide".to_owned()));
}

#[test]
fn begin_errors_keep_typed_feedback_only_until_candidate_supersedes() {
    let (selection, overlay) = fakes(true, false, false);
    let mut coordinator = ready(&selection, &overlay);
    let snapshot_id = coordinator.current_snapshot().unwrap().id;
    let stale_guard = coordinator.feedback_guard(snapshot_id).unwrap();
    assert!(matches!(
        coordinator.begin_transform(snapshot_id.wrapping_add(1), 1),
        Err(VerbalixError::StaleSelection)
    ));
    coordinator.begin_transform(snapshot_id, 2).unwrap();
    let active_guard = coordinator.feedback_guard(snapshot_id).unwrap();
    assert!(matches!(
        coordinator.begin_transform(snapshot_id, 3),
        Err(VerbalixError::OperationInProgress)
    ));

    coordinator.dispatch(SelectionEvent::Candidate(different_candidate())).unwrap();
    assert!(!coordinator.may_publish(stale_guard));
    assert!(!coordinator.may_publish(active_guard));
}

#[test]
fn candidate_during_readiness_revokes_pin_before_provider_or_feedback() {
    let (selection, overlay) = fakes(true, false, false);
    let mut coordinator = ready(&selection, &overlay);
    let captured = coordinator.current_snapshot().unwrap();
    let input = request(&captured.text);
    coordinator.begin_transform(captured.id, input.request_id).unwrap();
    assert!(coordinator.publication_guard(captured.id, input.request_id).is_some());

    coordinator.dispatch(SelectionEvent::Candidate(different_candidate())).unwrap();
    assert!(matches!(
        coordinator.transform_target(captured.id, &input),
        Err(VerbalixError::StaleSelection)
    ));
    assert!(selection.replacements.borrow().is_empty());
    assert!(coordinator.publication_guard(captured.id, input.request_id).is_none());
}

#[test]
fn candidate_before_write_claim_cancels_without_blocking_or_setter() {
    let (selection, overlay) = fakes(true, false, false);
    let mut coordinator = ready(&selection, &overlay);
    let captured = coordinator.current_snapshot().unwrap();
    let input = request(&captured.text);
    coordinator.begin_transform(captured.id, input.request_id).unwrap();
    let pinned = coordinator.transform_target(captured.id, &input).unwrap();
    coordinator.dispatch(SelectionEvent::Candidate(different_candidate())).unwrap();
    let answer = Ok(TransformResult {
        request_id: input.request_id,
        source_language: "pt".to_owned(),
        target_language: Some("en".to_owned()),
        result: "late".to_owned(),
    });
    assert!(matches!(
        coordinator.complete_transform(&input, &pinned, answer, false),
        Err(VerbalixError::StaleSelection)
    ));
    assert!(selection.replacements.borrow().is_empty());
    assert!(!overlay.events.borrow().iter().any(|e| e.contains("late")));
}

#[test]
fn transient_invalidation_preserves_but_real_invalidation_cancels_the_lease() {
    let (selection, overlay) = fakes(true, false, false);
    let mut coordinator = ready(&selection, &overlay);
    let captured = coordinator.current_snapshot().unwrap();
    let input = request(&captured.text);
    coordinator.begin_transform(captured.id, input.request_id).unwrap();
    let guard = coordinator.publication_guard(captured.id, input.request_id).unwrap();

    coordinator.dispatch(SelectionEvent::TransientInvalidated).unwrap();
    assert!(coordinator.transform_target(captured.id, &input).is_ok());
    assert!(coordinator.may_publish(guard));

    coordinator.dispatch(SelectionEvent::Invalidated).unwrap();
    assert!(coordinator.current_snapshot().is_none());
    assert!(!coordinator.may_publish(guard));
    assert_eq!(overlay.events.borrow().as_slice(), ["toolbar", "hide"]);
}

#[test]
fn provider_error_and_invalid_answers_return_to_toolbar() {
    let (selection, overlay) = fakes(true, false, false);
    let mut coordinator = ready(&selection, &overlay);
    let first = request("Olá 👩🏽‍💻");
    let id = first.request_id;
    assert_eq!(
        execute(&mut coordinator, first, false, Some(Err(VerbalixError::ProviderTimeout))).unwrap_err(),
        VerbalixError::ProviderTimeout
    );
    let second = request("Olá 👩🏽‍💻");
    let blank = Ok(TransformResult {
        request_id: second.request_id,
        source_language: "pt".to_owned(),
        target_language: Some("en".to_owned()),
        result: "  ".to_owned(),
    });
    assert_eq!(
        execute(&mut coordinator, second, false, Some(blank)).unwrap_err(),
        VerbalixError::InvalidResponse
    );
    let third = request("Olá 👩🏽‍💻");
    let other = Ok(TransformResult {
        request_id: id,
        source_language: "pt".to_owned(),
        target_language: Some("en".to_owned()),
        result: "r".to_owned(),
    });
    assert_eq!(
        execute(&mut coordinator, third, false, Some(other)).unwrap_err(),
        VerbalixError::InvalidResponse
    );
    assert!(selection.replacements.borrow().is_empty());
    let fourth = request("Olá 👩🏽‍💻");
    assert!(execute(&mut coordinator, fourth, false, None).is_ok());
}

#[test]
fn abort_returns_the_pinned_capture_to_its_toolbar() {
    let (selection, overlay) = fakes(true, false, false);
    let mut coordinator = ready(&selection, &overlay);
    let captured = coordinator.current_snapshot().unwrap();
    coordinator.begin_transform(captured.id, 11).unwrap();
    coordinator.abort_transform(11).unwrap();
    coordinator.begin_transform(captured.id, 12).unwrap();
    coordinator.abort_transform(99).unwrap();
    assert!(matches!(
        coordinator.begin_transform(captured.id, 13),
        Err(VerbalixError::OperationInProgress)
    ));
}


struct LostResponseSelection {
    projection: RefCell<Option<MutationProjection>>,
    setters: RefCell<Vec<u128>>,
}

impl SelectionPort for &LostResponseSelection {
    fn permission_granted(&self, _prompt: bool) -> bool {
        true
    }

    fn capture(&self) -> Result<SelectionSnapshot, VerbalixError> {
        Err(VerbalixError::SelectionUnavailable)
    }

    fn replace(&self, _expected: &SelectionSnapshot, _text: &str) -> Result<(), VerbalixError> {
        panic!("execute_replace must use caller-preallocated mutation ID")
    }

    fn replace_guarded_with_id(
        &self,
        expected: &SelectionSnapshot,
        text: &str,
        lease: &mut TransformLease,
        mutation_id: u128,
    ) -> Result<MutationReceipt, VerbalixError> {
        assert!(lease.try_claim_write());
        self.setters.borrow_mut().push(mutation_id);
        let receipt = MutationReceipt {
            id: mutation_id,
            snapshot_id: expected.id,
            request_id: lease.request_id(),
        };
        *self.projection.borrow_mut() = Some(MutationProjection {
            receipt,
            snapshot: expected.clone(),
            original_text: expected.text.clone(),
            transformed_text: text.to_owned(),
            strategy: expected.extraction_strategy,
            target_snapshot_id: expected.id,
            status: MutationStatus::Confirmed,
        });
        Err(VerbalixError::LocalFailure)
    }

    fn restore(&self, _expected: &SelectionSnapshot, _transformed_text: &str) -> Result<(), VerbalixError> {
        Ok(())
    }

    fn reconcile_mutation(&self, mutation_id: u128) -> Result<Option<MutationProjection>, VerbalixError> {
        let p = self.projection.borrow();
        Ok(match &*p {
            Some(projection) if projection.receipt.id == mutation_id => Some(MutationProjection {
                receipt: projection.receipt,
                snapshot: projection.snapshot.clone(),
                original_text: projection.original_text.clone(),
                transformed_text: projection.transformed_text.clone(),
                strategy: projection.strategy,
                target_snapshot_id: projection.target_snapshot_id,
                status: projection.status,
            }),
            _ => None,
        })
    }
}

#[test]
fn lost_response_recovers_the_caller_preallocated_confirmed_mutation() {
    let selection = LostResponseSelection {
        projection: RefCell::new(None),
        setters: RefCell::new(Vec::new()),
    };
    let overlay = FakeOverlay::default();
    let mut coordinator = SelectionCoordinator::new(&selection, &overlay);
    let mut selected = snapshot(true).with_extraction_strategy(SelectionExtractionStrategy::ValueRange);
    selected.text = "before".to_owned();
    coordinator.dispatch(SelectionEvent::Candidate(selected.clone())).unwrap();
    let guard = coordinator.feedback_guard(selected.id).unwrap();

    let recovered = coordinator.execute_replace(&selected, "after", guard).unwrap();

    assert_eq!(selection.setters.borrow().as_slice(), [recovered.id]);
    let projection = (&selection).reconcile_mutation(recovered.id).unwrap().unwrap();
    assert_eq!(projection.receipt, recovered);
    assert!(projection.status == MutationStatus::Confirmed);
    assert_eq!(projection.original_text, "before");
    assert_eq!(projection.transformed_text, "after");
}

fn projection(snapshot: &SelectionSnapshot, receipt: MutationReceipt, text: &str, status: MutationStatus) -> MutationProjection {
    MutationProjection {
        receipt,
        snapshot: snapshot.clone(),
        original_text: snapshot.text.clone(),
        transformed_text: text.to_owned(),
        strategy: snapshot.extraction_strategy,
        target_snapshot_id: snapshot.id,
        status,
    }
}

#[test]
fn reconciled_records_must_agree_to_be_journaled() {
    let s = snapshot(true);
    let receipt = MutationReceipt {
        id: 1,
        snapshot_id: s.id,
        request_id: 2,
    };
    assert!(reconciliation_agrees(&None, receipt, &s, "after"));
    let agreeing = Some(projection(&s, receipt, "after", MutationStatus::Confirmed));
    assert!(reconciliation_agrees(&agreeing, receipt, &s, "after"));
    assert!(!reconciliation_agrees(&agreeing, receipt, &s, "other"));
    let unconfirmed = Some(projection(&s, receipt, "after", MutationStatus::Unconfirmed));
    assert!(!reconciliation_agrees(&unconfirmed, receipt, &s, "after"));
    let other_receipt = MutationReceipt { id: 9, ..receipt };
    assert!(!reconciliation_agrees(&agreeing, other_receipt, &s, "after"));
}

#[test]
fn a_failed_write_yields_only_a_confirmed_matching_receipt() {
    let s = snapshot(true);
    let receipt = MutationReceipt {
        id: 1,
        snapshot_id: s.id,
        request_id: 2,
    };
    assert_eq!(
        recovered_receipt(None, &s, "after", VerbalixError::LocalFailure),
        Err(VerbalixError::LocalFailure)
    );
    assert_eq!(
        recovered_receipt(Some(projection(&s, receipt, "after", MutationStatus::Confirmed)), &s, "after", VerbalixError::LocalFailure),
        Ok(receipt)
    );
    assert_eq!(
        recovered_receipt(Some(projection(&s, receipt, "after", MutationStatus::Unconfirmed)), &s, "after", VerbalixError::StaleSelection),
        Err(VerbalixError::StaleSelection)
    );
    assert_eq!(
        recovered_receipt(Some(projection(&different_candidate(), receipt, "after", MutationStatus::Confirmed)), &s, "after", VerbalixError::StaleSelection),
        Err(VerbalixError::StaleSelection)
    );
}

#[test]
fn refresh_is_refused_while_paused_and_shows_the_toolbar_otherwise() {
    let (selection, overlay) = fakes(true, false, false);
    let mut coordinator = SelectionCoordinator::new(&selection, &overlay);
    let mut pause = RuntimePause::new();
    assert!(pause.toggle());
    assert!(refresh_unless_paused(&mut coordinator, &pause).unwrap().is_none());
    assert!(coordinator.current_snapshot().is_none());
    assert!(!pause.toggle());
    let s = refresh_unless_paused(&mut coordinator, &pause).unwrap().unwrap();
    assert_eq!(overlay.events.borrow().as_slice(), ["toolbar"]);
    assert_eq!(error_bounds_with(&coordinator, &pause, None), Some(s.bounds));
}

#[test]
fn error_bounds_fall_back_to_the_last_capture_only_during_an_action() {
    let (selection, overlay) = fakes(true, false, false);
    let coordinator = SelectionCoordinator::new(&selection, &overlay);
    let mut pause = RuntimePause::new();
    let last = snapshot(true).bounds;
    assert_eq!(error_bounds_with(&coordinator, &pause, Some(last)), None);
    let guard = pause.begin_action();
    assert_eq!(error_bounds_with(&coordinator, &pause, Some(last)), Some(last));
    pause.end_action(guard);
}

#[test]
fn invalidation_before_write_claim_cancels_without_blocking_or_setter() {
    let (selection, overlay) = fakes(true, false, false);
    let mut coordinator = ready(&selection, &overlay);
    let captured = coordinator.current_snapshot().unwrap();
    let input = request(&captured.text);
    coordinator.begin_transform(captured.id, input.request_id).unwrap();
    let pinned = coordinator.transform_target(captured.id, &input).unwrap();
    coordinator.dispatch(SelectionEvent::Invalidated).unwrap();
    let answer = Ok(TransformResult {
        request_id: input.request_id,
        source_language: "pt".to_owned(),
        target_language: Some("en".to_owned()),
        result: "late".to_owned(),
    });
    assert!(matches!(
        coordinator.complete_transform(&input, &pinned, answer, false),
        Err(VerbalixError::StaleSelection)
    ));
    assert!(selection.replacements.borrow().is_empty());
    assert!(coordinator.current_snapshot().is_none());
}

struct HideFailingOverlay {
    events: RefCell<Vec<&'static str>>,
}

impl OverlayPort for &HideFailingOverlay {
    fn show_toolbar(&self, _bounds: Rect) -> Result<(), VerbalixError> {
        self.events.borrow_mut().push("toolbar");
        Ok(())
    }

    fn show_note(&self, _bounds: Rect, _text: &str) -> Result<(), VerbalixError> {
        self.events.borrow_mut().push("note");
        Ok(())
    }

    fn show_preview(&self, _bounds: Rect, _request_id: u128, _text: &str) -> Result<(), VerbalixError> {
        self.events.borrow_mut().push("preview");
        Ok(())
    }

    fn show_undo(&self, _bounds: Rect, _text: &str) -> Result<(), VerbalixError> {
        self.events.borrow_mut().push("undo");
        Ok(())
    }

    fn hide_all(&self) -> Result<(), VerbalixError> {
        self.events.borrow_mut().push("hide");
        Err(VerbalixError::LocalFailure)
    }
}

fn editor(pid: i32, identifier: &str) -> SelectionSnapshot {
    SelectionSnapshot::new(
        pid,
        format!("pid:{pid}"),
        "same text".to_owned(),
        TextRange {
            location: 3,
            length: 9,
        },
        Rect {
            x_bits: 10.0f64.to_bits(),
            y_bits: 20.0f64.to_bits(),
            width_bits: 70.0f64.to_bits(),
            height_bits: 18.0f64.to_bits(),
        },
        true,
    )
    .with_native_element_identifier(Some(identifier.to_owned()))
}

#[test]
fn failed_hide_does_not_restore_a_superseded_processing_lease() {
    let captured = editor(42, "editor-a");
    let selection = FakeSelection {
        snapshot: RefCell::new(captured.clone()),
        replacements: RefCell::new(Vec::new()),
        fail_write: false,
    };
    let overlay = HideFailingOverlay {
        events: RefCell::new(Vec::new()),
    };
    let mut coordinator = SelectionCoordinator::new(&selection, &overlay);
    coordinator.dispatch(SelectionEvent::Candidate(captured.clone())).unwrap();
    coordinator.dispatch(SelectionEvent::DebounceElapsed(captured.id)).unwrap();
    coordinator.begin_transform(captured.id, 5).unwrap();
    let guard = coordinator.publication_guard(captured.id, 5).unwrap();
    let next = editor(84, "editor-b");
    let next_id = next.id;

    coordinator.dispatch(SelectionEvent::Candidate(next)).unwrap();

    assert_eq!(coordinator.current_snapshot().unwrap().id, next_id);
    assert!(matches!(
        coordinator.begin_transform(next_id, 6),
        Err(VerbalixError::StaleSelection)
    ));
    assert!(!coordinator.may_publish(guard));
    assert!(overlay.events.borrow().contains(&"hide"));
}

struct RecapturingSelection;

impl SelectionPort for &RecapturingSelection {
    fn permission_granted(&self, _prompt: bool) -> bool {
        true
    }

    fn capture(&self) -> Result<SelectionSnapshot, VerbalixError> {
        Ok(SelectionSnapshot::new(
            42,
            "com.editor".to_owned(),
            "same target".to_owned(),
            TextRange {
                location: 2,
                length: 11,
            },
            Rect {
                x_bits: 100.0f64.to_bits(),
                y_bits: 200.0f64.to_bits(),
                width_bits: 80.0f64.to_bits(),
                height_bits: 20.0f64.to_bits(),
            },
            true,
        ))
    }

    fn replace(&self, _expected: &SelectionSnapshot, _text: &str) -> Result<(), VerbalixError> {
        Ok(())
    }

    fn restore(&self, _expected: &SelectionSnapshot, _transformed_text: &str) -> Result<(), VerbalixError> {
        Ok(())
    }
}

struct DeniedSelection;

impl SelectionPort for &DeniedSelection {
    fn permission_granted(&self, _prompt: bool) -> bool {
        false
    }

    fn capture(&self) -> Result<SelectionSnapshot, VerbalixError> {
        Err(VerbalixError::PermissionDenied)
    }

    fn replace(&self, _expected: &SelectionSnapshot, _text: &str) -> Result<(), VerbalixError> {
        Err(VerbalixError::PermissionDenied)
    }

    fn restore(&self, _expected: &SelectionSnapshot, _transformed_text: &str) -> Result<(), VerbalixError> {
        Err(VerbalixError::PermissionDenied)
    }
}

#[test]
fn equivalent_recapture_returns_the_active_candidate_id_for_debounce() {
    let overlay = FakeOverlay::default();
    let mut coordinator = SelectionCoordinator::new(&RecapturingSelection, &overlay);
    let original = coordinator.refresh_selection().unwrap().unwrap();
    let recaptured = coordinator.refresh_selection().unwrap().unwrap();

    assert_eq!(recaptured.id, original.id);
    coordinator.dispatch(SelectionEvent::DebounceElapsed(recaptured.id)).unwrap();
    assert_eq!(overlay.events.borrow().iter().filter(|e| *e == "toolbar").count(), 1);
}

#[test]
fn permission_denied_stops_before_any_toolbar_intention() {
    let overlay = FakeOverlay::default();
    let mut coordinator = SelectionCoordinator::new(&DeniedSelection, &overlay);

    assert!(matches!(coordinator.refresh_selection(), Err(VerbalixError::PermissionDenied)));
    assert!(coordinator.current_snapshot().is_none());
    assert!(overlay.events.borrow().is_empty());
}

#[test]
fn guarded_writes_claim_the_lease_once_and_name_the_capture() {
    let (selection, _overlay) = fakes(true, false, false);
    let port = &selection;
    let captured = snapshot(true);
    let mut lease = TransformLease::new(captured.id, 7);
    let receipt = port.replace_guarded(&captured, "written", &mut lease).unwrap();
    assert_eq!(receipt.snapshot_id, captured.id);
    assert_eq!(receipt.request_id, 7);
    assert_eq!(selection.replacements.borrow().as_slice(), ["written".to_owned()]);
    assert_eq!(
        port.replace_guarded(&captured, "again", &mut lease),
        Err(VerbalixError::StaleSelection)
    );
    assert_eq!(selection.replacements.borrow().len(), 1);

    let mut cancelled = TransformLease::new(captured.id, 8);
    cancelled.cancel();
    assert_eq!(
        port.restore_guarded(&captured, "written", &mut cancelled),
        Err(VerbalixError::StaleSelection)
    );
    assert!(matches!(port.reconcile_mutation(receipt.id), Ok(None)));
    assert_eq!(selection.replacements.borrow().len(), 1);
}

#[test]
fn only_an_agreeing_reconciliation_is_journaled() {
    let (selection, overlay) = fakes(true, false, false);
    let mut coordinator = SelectionCoordinator::new(&selection, &overlay);
    let s = snapshot(true);
    let receipt = MutationReceipt {
        id: 1,
        snapshot_id: s.id,
        request_id: 2,
    };
    let refused = coordinator.record_reconciled_mutation(
        Some(projection(&s, receipt, "other", MutationStatus::Confirmed)),
        receipt,
        s.clone(),
        "after".to_owned(),
    );
    assert!(matches!(refused, Err(VerbalixError::LocalFailure)));
    let first = coordinator
        .record_reconciled_mutation(None, receipt, s.clone(), "after".to_owned())
        .unwrap();
    assert_eq!(first.undo_lease, 0);
    assert_eq!(first.transformed_text, "after");
    let second = coordinator
        .record_reconciled_mutation(
            Some(projection(&s, MutationReceipt { id: 3, ..receipt }, "after", MutationStatus::Confirmed)),
            MutationReceipt { id: 3, ..receipt },
            s.clone(),
            "after".to_owned(),
        )
        .unwrap();
    assert_eq!(second.undo_lease, 1);
}

#[test]
fn a_pinned_lease_writes_once() {
    let (selection, overlay) = fakes(true, false, false);
    let mut coordinator = ready(&selection, &overlay);
    let current = coordinator.current_snapshot().unwrap();
    coordinator.begin_transform(current.id, 77).unwrap();
    let guard = coordinator.publication_guard(current.id, 77).unwrap();
    let receipt = coordinator.execute_replace(&current, "first", guard).unwrap();
    assert_eq!(receipt.snapshot_id, current.id);
    assert_eq!(receipt.request_id, 77);
    assert_eq!(
        coordinator.execute_replace(&current, "second", guard),
        Err(VerbalixError::StaleSelection)
    );
    assert_eq!(selection.replacements.borrow().as_slice(), ["first".to_owned()]);
    assert_eq!(
        coordinator.execute_replace(&current, "third", guard + 1000),
        Err(VerbalixError::StaleSelection)
    );
    assert_eq!(selection.replacements.borrow().len(), 1);
}
