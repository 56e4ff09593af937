//! Selection snapshots, the states of the selection state machine, and the
//! receipts of document mutations.
use crate::text::chars_of;
use vstd::prelude::*;

verus! {

/// A rectangle on screen. Its four coordinates are kept as the bit patterns
/// of the `f64` values the platform measured; the library only passes them on.
#[derive(Clone, Copy, Debug, PartialEq, Eq, Structural)]
pub struct Rect {
    pub x_bits: u64,
    pub y_bits: u64,
    pub width_bits: u64,
    pub height_bits: u64,
}

/// A range of a text field, in UTF-16 units as the accessibility API reports it.
#[derive(Clone, Copy, Debug, PartialEq, Eq, Structural)]
pub struct TextRange {
    pub location: u64,
    pub length: u64,
}

/// How the selected text was read.
#[derive(Clone, Copy, Debug, PartialEq, Eq, Structural)]
pub enum SelectionExtractionStrategy {
    SelectedText,
    ValueRange,
    ClipboardFallback,
}

/// The stable code of an extraction strategy.
pub fn strategy_code(strategy: SelectionExtractionStrategy) -> (code: &'static str)
    ensures
        code == strategy_code_spec(strategy),
{
    match strategy {
        SelectionExtractionStrategy::SelectedText => "selected_text",
        SelectionExtractionStrategy::ValueRange => "value_range",
        SelectionExtractionStrategy::ClipboardFallback => "clipboard_fallback",
    }
}

pub open spec fn strategy_code_spec(strategy: SelectionExtractionStrategy) -> &'static str {
    match strategy {
        SelectionExtractionStrategy::SelectedText => "selected_text",
        SelectionExtractionStrategy::ValueRange => "value_range",
        SelectionExtractionStrategy::ClipboardFallback => "clipboard_fallback",
    }
}

/// Where the on-screen bounds of a capture were measured.
#[derive(Clone, Copy, Debug, PartialEq, Eq, Structural)]
pub enum SelectionGeometrySource {
    /// The bounds of the selected text range.
    SelectedRange,
    /// The frame of the focused element.
    FocusedElement,
    /// The mouse position, when neither of the others was available.
    MouseLocation,
}

pub open spec fn geometry_code_spec(source: SelectionGeometrySource) -> &'static str {
    match source {
        SelectionGeometrySource::SelectedRange => "selected_range",
        SelectionGeometrySource::FocusedElement => "focused_element",
        SelectionGeometrySource::MouseLocation => "mouse_location",
    }
}

/// The stable code of a geometry source.
pub fn geometry_code(source: SelectionGeometrySource) -> (code: &'static str)
    ensures
        code == geometry_code_spec(source),
{
    match source {
        SelectionGeometrySource::SelectedRange => "selected_range",
        SelectionGeometrySource::FocusedElement => "focused_element",
        SelectionGeometrySource::MouseLocation => "mouse_location",
    }
}

/// An immutable capture of a selection: which process and element it lives
/// in, its text, its range and where it is on screen. `id` names this
/// capture; two captures of the same selection have different ids but the
/// same target.
#[derive(Debug)]
pub struct SelectionSnapshot {
    pub id: u128,
    pub pid: i32,
    pub app_identity: String,
    pub text: String,
    pub range: TextRange,
    pub bounds: Rect,
    pub writable: bool,
    pub native_element_identifier: Option<String>,
    pub geometry_source: Option<SelectionGeometrySource>,
    pub extraction_strategy: SelectionExtractionStrategy,
}

impl Clone for SelectionSnapshot {
    fn clone(&self) -> (r: Self)
        ensures
            r == *self,
    {
        SelectionSnapshot {
            id: self.id,
            pid: self.pid,
            app_identity: self.app_identity.clone(),
            text: self.text.clone(),
            range: self.range,
            bounds: self.bounds,
            writable: self.writable,
            native_element_identifier: match &self.native_element_identifier {
                Some(s) => Some(s.clone()),
                None => None,
            },
            geometry_source: self.geometry_source,
            extraction_strategy: self.extraction_strategy,
        }
    }
}

pub open spec fn opt_chars(o: Option<String>) -> Option<Seq<char>> {
    match o {
        Some(s) => Some(s@),
        None => None,
    }
}

/// Two captures address the same selection: same process and application,
/// same element, same text, same range.
pub open spec fn same_target_spec(a: SelectionSnapshot, b: SelectionSnapshot) -> bool {
    &&& a.pid == b.pid
    &&& a.app_identity@ == b.app_identity@
    &&& opt_chars(a.native_element_identifier) == opt_chars(b.native_element_identifier)
    &&& a.text@ == b.text@
    &&& a.range == b.range
}

/// Two captures are the same target only when they are the same selection:
/// captures that differ in their selected text, process, application,
/// element or range are never the same target, while captures that differ
/// only in their id, bounds, writability or how they were read are.
pub proof fn lemma_same_target_is_same_selection(a: SelectionSnapshot, b: SelectionSnapshot)
    ensures
        a.text@ != b.text@ ==> !same_target_spec(a, b),
        a.pid != b.pid ==> !same_target_spec(a, b),
        a.app_identity@ != b.app_identity@ ==> !same_target_spec(a, b),
        opt_chars(a.native_element_identifier) != opt_chars(b.native_element_identifier)
            ==> !same_target_spec(a, b),
        a.range != b.range ==> !same_target_spec(a, b),
        same_target_spec(a, a),
        same_target_spec(a, b) ==> same_target_spec(b, a),
        (a.pid == b.pid && a.app_identity == b.app_identity && a.native_element_identifier
            == b.native_element_identifier && a.text == b.text && a.range == b.range)
            ==> same_target_spec(a, b),
{
}

fn same_opt_string(a: &Option<String>, b: &Option<String>) -> (r: bool)
    ensures
        r == (opt_chars(*a) == opt_chars(*b)),
{
    match (a, b) {
        (Some(x), Some(y)) => *x == *y,
        (None, None) => true,
        _ => false,
    }
}

impl SelectionSnapshot {
    /// A capture with the given id; the element identifier is unknown and
    /// the text was read as the selected-text attribute.
    pub fn with_id(
        id: u128,
        pid: i32,
        app_identity: String,
        text: String,
        range: TextRange,
        bounds: Rect,
        writable: bool,
    ) -> (s: Self)
        ensures
            s.id == id,
            s.pid == pid,
            s.app_identity == app_identity,
            s.text == text,
            s.range == range,
            s.bounds == bounds,
            s.writable == writable,
            s.native_element_identifier is None,
            s.geometry_source is None,
            s.extraction_strategy == SelectionExtractionStrategy::SelectedText,
    {
        SelectionSnapshot {
            id,
            pid,
            app_identity,
            text,
            range,
            bounds,
            writable,
            native_element_identifier: None,
            geometry_source: None,
            extraction_strategy: SelectionExtractionStrategy::SelectedText,
        }
    }

    /// A capture with a fresh random id.
    pub fn new(
        pid: i32,
        app_identity: String,
        text: String,
        range: TextRange,
        bounds: Rect,
        writable: bool,
    ) -> (s: Self)
        ensures
            s.pid == pid,
            s.app_identity == app_identity,
            s.text == text,
            s.range == range,
            s.bounds == bounds,
            s.writable == writable,
            s.native_element_identifier is None,
            s.geometry_source is None,
            s.extraction_strategy == SelectionExtractionStrategy::SelectedText,
    {
        Self::with_id(crate::ids::fresh_id(), pid, app_identity, text, range, bounds, writable)
    }

    pub fn with_extraction_strategy(self, strategy: SelectionExtractionStrategy) -> (s: Self)
        ensures
            s == (SelectionSnapshot { extraction_strategy: strategy, ..self }),
    {
        SelectionSnapshot { extraction_strategy: strategy, ..self }
    }

    pub fn with_geometry_source(self, source: Option<SelectionGeometrySource>) -> (s: Self)
        ensures
            s == (SelectionSnapshot { geometry_source: source, ..self }),
    {
        SelectionSnapshot { geometry_source: source, ..self }
    }

    pub fn with_native_element_identifier(self, identifier: Option<String>) -> (s: Self)
        ensures
            s == (SelectionSnapshot { native_element_identifier: identifier, ..self }),
    {
        SelectionSnapshot { native_element_identifier: identifier, ..self }
    }

    /// Whether both captures address the same selection.
    pub fn same_target(&self, other: &SelectionSnapshot) -> (r: bool)
        ensures
            r == same_target_spec(*self, *other),
    {
        self.pid == other.pid && self.app_identity == other.app_identity && same_opt_string(
            &self.native_element_identifier,
            &other.native_element_identifier,
        ) && self.text == other.text && self.range == other.range
    }

    /// The number of characters of the selected text.
    pub fn text_chars(&self) -> (n: usize)
        ensures
            n == self.text@.len(),
    {
        chars_of(self.text.as_str()).len()
    }
}

/// The states of the selection state machine.
#[derive(Debug)]
pub enum SelectionState {
    Idle,
    /// A capture waiting for its debounce.
    Candidate(SelectionSnapshot),
    /// The toolbar is shown for the capture.
    ToolbarVisible(SelectionSnapshot),
    /// A read-only result note is shown.
    ResultVisible(SelectionSnapshot),
    /// A result waits for explicit application.
    PreviewVisible { snapshot: SelectionSnapshot, request_id: u128, result: String },
    /// A result was written into the document.
    Applied { snapshot: SelectionSnapshot, transformed_text: String, mutation_id: Option<u128> },
    /// A transformation is pinned to the capture.
    Processing { snapshot: SelectionSnapshot, request_id: u128 },
}

/// The capture a state is about, if any.
pub open spec fn state_snapshot(s: SelectionState) -> Option<SelectionSnapshot> {
    match s {
        SelectionState::Idle => None,
        SelectionState::Candidate(x) => Some(x),
        SelectionState::ToolbarVisible(x) => Some(x),
        SelectionState::ResultVisible(x) => Some(x),
        SelectionState::PreviewVisible { snapshot, .. } => Some(snapshot),
        SelectionState::Applied { snapshot, .. } => Some(snapshot),
        SelectionState::Processing { snapshot, .. } => Some(snapshot),
    }
}

/// The events the detection machinery sends the state machine.
#[derive(Debug)]
pub enum SelectionEvent {
    /// A new capture.
    Candidate(SelectionSnapshot),
    /// The debounce of the capture with this id elapsed.
    DebounceElapsed(u128),
    /// The selection may come back (focus moved briefly).
    TransientInvalidated,
    /// The selection is gone.
    Invalidated,
}

/// Proof that a document mutation was performed.
#[derive(Clone, Copy, Debug, PartialEq, Eq, Structural)]
pub struct MutationReceipt {
    pub id: u128,
    pub snapshot_id: u128,
    pub request_id: u128,
}

/// Whether the platform confirmed a mutation.
#[derive(Clone, Copy, Debug, PartialEq, Eq, Structural)]
pub enum MutationStatus {
    Confirmed,
    Unconfirmed,
}

/// What the platform recorded of a mutation it performed.
#[derive(Debug)]
pub struct MutationProjection {
    pub receipt: MutationReceipt,
    pub snapshot: SelectionSnapshot,
    pub original_text: String,
    pub transformed_text: String,
    pub strategy: SelectionExtractionStrategy,
    pub target_snapshot_id: u128,
    pub status: MutationStatus,
}

} // verus!
