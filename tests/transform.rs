use ot_core::{
    Advance, DeleteOperation, InsertOperation, Operation, SequenceSwapper, SequenceTransformer,
};

#[test]
fn transformer_follows_then_precedes() {
    let mut t = SequenceTransformer::new();
    let mut incoming = DeleteOperation::new(10, 2, 5);
    let first = InsertOperation::new(3, b"abc".to_vec(), 1, 1);
    assert!(matches!(t.transform_operations(&mut incoming, &first), Advance::Existing));
    assert_eq!(t.existing_offset(), 3);
    assert_eq!(incoming.get_position(), 10);

    let second = DeleteOperation::new(20, 4, 2);
    assert!(matches!(t.transform_operations(&mut incoming, &second), Advance::Incoming));
    assert_eq!(t.incoming_offset(), -2);
    assert_eq!(t.existing_offset(), 3);
    assert_eq!(t.total_overlap(), 0);
    assert_eq!(incoming.get_position(), 13);
    assert_eq!(incoming.get_length(), 2);
}

#[test]
fn transformer_insert_enclosed_by_delete() {
    let mut t = SequenceTransformer::new();
    let mut incoming = InsertOperation::new(4, b"zz".to_vec(), 0, 2);
    let existing = DeleteOperation::new(2, 5, 1);
    assert!(matches!(t.transform_operations(&mut incoming, &existing), Advance::Incoming));
    assert_eq!(incoming.get_position(), 2);
    assert_eq!(incoming.get_value(), b"zz");
    assert_eq!(t.incoming_offset(), 2);
    assert_eq!(t.total_overlap(), -2);
}

#[test]
fn transformer_delete_enclosed_by_delete() {
    let mut t = SequenceTransformer::new();
    let mut incoming = DeleteOperation::new(4, 1, 0);
    let existing = DeleteOperation::new(2, 5, 1);
    assert!(matches!(t.transform_operations(&mut incoming, &existing), Advance::Incoming));
    assert_eq!(incoming.get_position(), 2);
    assert_eq!(incoming.get_length(), 0);
    assert_eq!(t.incoming_offset(), -1);
    assert_eq!(t.existing_offset(), 0);
    assert_eq!(t.total_overlap(), 1);
}

#[test]
fn transformer_splits_an_enclosing_delete() {
    let mut t = SequenceTransformer::new();
    let mut incoming = DeleteOperation::new(1, 5, 0);
    let existing = DeleteOperation::new(2, 3, 1);
    match t.transform_operations(&mut incoming, &existing) {
        Advance::Neither(tail) => {
            assert_eq!(tail.get_position(), 1);
            assert_eq!(tail.get_length(), 4);
        },
        _ => panic!("expected a split"),
    }
    assert_eq!(incoming.get_position(), 1);
    assert_eq!(incoming.get_length(), 1);
    assert_eq!(t.incoming_offset(), -1);
}

#[test]
fn transformer_overlap_back_then_precedes() {
    let mut t = SequenceTransformer::new();
    let mut incoming = DeleteOperation::new(4, 4, 0);
    let existing = DeleteOperation::new(2, 4, 1);
    assert!(matches!(t.transform_operations(&mut incoming, &existing), Advance::Existing));
    assert_eq!(incoming.get_length(), 2);
    assert_eq!(incoming.get_position(), 4);
    assert_eq!(t.incoming_offset(), -2);
    assert_eq!(t.existing_offset(), -4);
    assert_eq!(t.total_overlap(), 2);

    let later = DeleteOperation::new(10, 1, 2);
    assert!(matches!(t.transform_operations(&mut incoming, &later), Advance::Incoming));
    assert_eq!(incoming.get_position(), 2);
    assert_eq!(incoming.get_length(), 2);
    assert_eq!(t.incoming_offset(), -4);

    let mut leftover = InsertOperation::new(9, b"q".to_vec(), 3, 1);
    t.transform_single(&mut leftover);
    assert_eq!(leftover.get_position(), 7);
}

#[test]
fn transformer_overlap_front() {
    let mut t = SequenceTransformer::new();
    let mut incoming = DeleteOperation::new(2, 4, 0);
    let existing = DeleteOperation::new(4, 4, 1);
    assert!(matches!(t.transform_operations(&mut incoming, &existing), Advance::Incoming));
    assert_eq!(incoming.get_position(), 2);
    assert_eq!(incoming.get_length(), 2);
    assert_eq!(t.incoming_offset(), -4);
    assert_eq!(t.total_overlap(), 2);
}

#[test]
fn swapper_precedes_then_follows() {
    let mut s = SequenceSwapper::new();
    let mut first = InsertOperation::new(3, b"ab".to_vec(), 0, 1);
    let mut existing = DeleteOperation::new(5, 2, 1);
    assert!(matches!(s.swap_operations(&mut first, &mut existing), Advance::Incoming));
    assert_eq!(first.get_position(), 3);
    assert_eq!(s.incoming_offset(), 2);

    let mut second = InsertOperation::new(8, b"cd".to_vec(), 2, 1);
    assert!(matches!(s.swap_operations(&mut second, &mut existing), Advance::Existing));
    assert_eq!(s.existing_offset(), -2);
    assert_eq!(existing.get_position(), 7);
    assert_eq!(second.get_position(), 8);

    let mut rest = InsertOperation::new(4, b"e".to_vec(), 3, 1);
    s.swap_single(&mut rest);
    assert_eq!(rest.get_position(), 6);
    let mut old_delete = DeleteOperation::new(1, 1, 4);
    s.swap_existing(&mut old_delete);
    assert_eq!(old_delete.get_position(), 3);
}

#[test]
fn swapper_splits_a_crossing_delete() {
    let mut s = SequenceSwapper::new();
    let mut incoming = DeleteOperation::new(2, 6, 0);
    let mut existing = DeleteOperation::new(5, 1, 1);
    match s.swap_operations(&mut incoming, &mut existing) {
        Advance::Neither(tail) => {
            assert_eq!(tail.get_position(), 2);
            assert_eq!(tail.get_length(), 3);
        },
        _ => panic!("expected a split"),
    }
    assert_eq!(incoming.get_length(), 3);
    assert_eq!(incoming.get_position(), 2);
    assert_eq!(s.incoming_offset(), -3);
    assert_eq!(existing.get_position(), 5);
}
