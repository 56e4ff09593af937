use verbalix::mutation_journal::{MutationJournal, JOURNAL_CAPACITY};
use verbalix::selection::{MutationReceipt, Rect, SelectionSnapshot, TextRange};

fn rect() -> Rect {
    Rect {
        x_bits: 0.0f64.to_bits(),
        y_bits: 0.0f64.to_bits(),
        width_bits: 1.0f64.to_bits(),
        height_bits: 1.0f64.to_bits(),
    }
}

fn snapshot() -> SelectionSnapshot {
    SelectionSnapshot::new(
        1,
        "pid:1".to_owned(),
        "before".to_owned(),
        TextRange {
            location: 0,
            length: 6,
        },
        rect(),
        true,
    )
}

#[test]
fn receipt_is_recorded_before_visual_state_and_survives_restore_marking() {
    let mut journal = MutationJournal::new();
    let selected = snapshot();
    let receipt = MutationReceipt {
        id: 77,
        snapshot_id: selected.id,
        request_id: 78,
    };
    let record = journal.record(receipt, selected, "after".to_owned(), 0);
    assert!(journal.contains(receipt.id));
    assert!(!record.restored);
    journal.mark_restored(receipt.id);
    assert!(journal.get(receipt.id).unwrap().restored);
}

#[test]
fn journal_forgets_the_oldest_record_beyond_its_capacity() {
    let mut journal = MutationJournal::new();
    for i in 0..(JOURNAL_CAPACITY as u128 + 1) {
        let receipt = MutationReceipt {
            id: i,
            snapshot_id: 0,
            request_id: 0,
        };
        journal.record(receipt, snapshot(), "after".to_owned(), i as u64);
    }
    assert!(!journal.contains(0));
    assert!(journal.contains(1));
    assert!(journal.contains(JOURNAL_CAPACITY as u128));
}

#[test]
fn recording_the_same_mutation_again_replaces_its_record() {
    let mut journal = MutationJournal::new();
    let receipt = MutationReceipt {
        id: 5,
        snapshot_id: 0,
        request_id: 0,
    };
    journal.record(receipt, snapshot(), "first".to_owned(), 1);
    journal.mark_restored(5);
    journal.record(receipt, snapshot(), "second".to_owned(), 2);
    let rec = journal.get(5).unwrap();
    assert_eq!(rec.transformed_text, "second");
    assert_eq!(rec.undo_lease, 2);
    assert!(!rec.restored);
    assert!(journal.get(6).is_none());
}
