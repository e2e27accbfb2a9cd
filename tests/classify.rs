use ot_core::{
    CrossResult, DeleteOperation, InsertOperation, Operation, OperationInternal, OverlapResult,
};

#[test]
fn overlapping() {
    // Insert / Insert
    let op1 = InsertOperation::new(2, "Some text".bytes().collect(), 0, 1);
    let op2 = InsertOperation::new(3, "Other words".bytes().collect(), 1, 2);
    assert_eq!(op1.check_overlap(&op2, 0, 1), OverlapResult::Precedes);

    let op1 = InsertOperation::new(2, "Some text".bytes().collect(), 0, 1);
    let op2 = InsertOperation::new(2, "Other words".bytes().collect(), 1, 2);
    assert_eq!(op1.check_overlap(&op2, 0, 1), OverlapResult::Follows);

    // Insert / Delete
    let op1 = InsertOperation::new(2, "Some text".bytes().collect(), 0, 1);
    let op2 = DeleteOperation::new(1, 5, 1);
    assert_eq!(op1.check_overlap(&op2, 0, 0), OverlapResult::EnclosedBy(1));

    let op1 = InsertOperation::new(2, "Some text".bytes().collect(), 0, 1);
    let op2 = DeleteOperation::new(1, 5, 1);
    assert_eq!(op1.check_overlap(&op2, -3, 0), OverlapResult::EnclosedBy(4));

    let op1 = InsertOperation::new(2, "Some text".bytes().collect(), 0, 1);
    let op2 = DeleteOperation::new(1, 5, 1);
    assert_eq!(op1.check_overlap(&op2, -4, 0), OverlapResult::Follows);

    let op1 = InsertOperation::new(2, "Some text".bytes().collect(), 0, 1);
    let op2 = DeleteOperation::new(1, 5, 1);
    assert_eq!(op1.check_overlap(&op2, 1, 0), OverlapResult::Precedes);

    // Delete / Insert
    let op1 = DeleteOperation::new(1, 5, 0);
    let op2 = InsertOperation::new(2, "Some text".bytes().collect(), 1, 2);
    assert_eq!(op1.check_overlap(&op2, 0, 1), OverlapResult::Follows);

    let op1 = DeleteOperation::new(1, 5, 0);
    let op2 = InsertOperation::new(2, "Some text".bytes().collect(), 1, 2);
    assert_eq!(op1.check_overlap(&op2, 0, -3), OverlapResult::Encloses(4));

    let op1 = DeleteOperation::new(1, 5, 0);
    let op2 = InsertOperation::new(2, "Some text".bytes().collect(), 1, 2);
    assert_eq!(op1.check_overlap(&op2, 0, -4), OverlapResult::Precedes);

    let op1 = DeleteOperation::new(11, 5, 0);
    let op2 = InsertOperation::new(2, "Some text".bytes().collect(), 1, 2);
    assert_eq!(op1.check_overlap(&op2, 0, 0), OverlapResult::Follows);

    // Delete / Delete
    let op1 = DeleteOperation::new(1, 5, 0);
    let op2 = DeleteOperation::new(6, 3, 1);
    assert_eq!(op1.check_overlap(&op2, 0, 0), OverlapResult::Precedes);

    let op1 = DeleteOperation::new(7, 1, 0);
    let op2 = DeleteOperation::new(4, 4, 1);
    assert_eq!(op1.check_overlap(&op2, 0, 1), OverlapResult::Follows);

    let op1 = DeleteOperation::new(1, 5, 0);
    let op2 = DeleteOperation::new(2, 4, 1);
    assert_eq!(op1.check_overlap(&op2, 0, 0), OverlapResult::OverlapFront(4));

    let op1 = DeleteOperation::new(1, 5, 0);
    let op2 = DeleteOperation::new(2, 3, 1);
    assert_eq!(op1.check_overlap(&op2, 0, 0), OverlapResult::Encloses(1));

    let op1 = DeleteOperation::new(1, 5, 0);
    let op2 = DeleteOperation::new(1, 5, 1);
    assert_eq!(op1.check_overlap(&op2, 0, 0), OverlapResult::OverlapBack(5));

    let op1 = DeleteOperation::new(1, 5, 0);
    let op2 = DeleteOperation::new(0, 4, 1);
    assert_eq!(op1.check_overlap(&op2, 0, -1), OverlapResult::OverlapBack(4));

    let op1 = DeleteOperation::new(4, 2, 0);
    let op2 = DeleteOperation::new(3, 2, 1);
    assert_eq!(op1.check_overlap(&op2, 0, 0), OverlapResult::OverlapBack(1));

    let op1 = DeleteOperation::new(4, 2, 0);
    let op2 = DeleteOperation::new(3, 3, 1);
    assert_eq!(op1.check_overlap(&op2, 0, 0), OverlapResult::OverlapBack(2));

    let op1 = DeleteOperation::new(4, 2, 0);
    let op2 = DeleteOperation::new(3, 4, 1);
    assert_eq!(op1.check_overlap(&op2, 0, 0), OverlapResult::EnclosedBy(1));

    let op1 = DeleteOperation::new(9, 4, 0);
    let op2 = DeleteOperation::new(2, 2, 1);
    assert_eq!(op1.check_overlap(&op2, 0, -5), OverlapResult::Follows);
}

#[test]
fn concrete_vectors() {
    let ins2 = InsertOperation::new(2, vec![b'a'], 0, 1);
    let ins3 = InsertOperation::new(3, vec![b'b'], 1, 2);
    assert_eq!(ins2.check_overlap(&ins3, 0, 1), OverlapResult::Precedes);

    let del = DeleteOperation::new(1, 5, 0);
    assert_eq!(ins2.check_overlap(&del, 0, 0), OverlapResult::EnclosedBy(1));
    assert_eq!(del.check_overlap(&ins2, 0, 0), OverlapResult::Encloses(1));

    let d24 = DeleteOperation::new(2, 4, 1);
    assert_eq!(del.check_overlap(&d24, 0, 0), OverlapResult::OverlapFront(4));

    let d23 = DeleteOperation::new(2, 3, 1);
    assert_eq!(del.check_overlap(&d23, 0, 0), OverlapResult::Encloses(1));

    let d42 = DeleteOperation::new(4, 2, 0);
    let d34 = DeleteOperation::new(3, 4, 1);
    assert_eq!(d42.check_overlap(&d34, 0, 0), OverlapResult::EnclosedBy(1));
}

fn inverse(r: OverlapResult) -> OverlapResult {
    match r {
        OverlapResult::Precedes => OverlapResult::Follows,
        OverlapResult::Follows => OverlapResult::Precedes,
        OverlapResult::Encloses(k) => OverlapResult::EnclosedBy(k),
        OverlapResult::EnclosedBy(k) => OverlapResult::Encloses(k),
        OverlapResult::OverlapFront(k) => OverlapResult::OverlapBack(k),
        OverlapResult::OverlapBack(k) => OverlapResult::OverlapFront(k),
    }
}

#[test]
fn classification_is_symmetric() {
    let deletes = [(1u64, 5u64), (2, 4), (2, 3), (0, 4), (6, 3), (3, 7), (4, 2), (1, 2)];
    for &(p, l) in deletes.iter() {
        for &(q, n) in deletes.iter() {
            for &(oa, ob) in [(0i64, 0i64), (0, -1), (2, 1), (-3, 0)].iter() {
                let a = DeleteOperation::new(p, l, 0);
                let b = DeleteOperation::new(q, n, 1);
                let same_front = p as i64 - oa == q as i64 - ob;
                if same_front && (l == n || l == 0 || n == 0) {
                    continue;
                }
                assert_eq!(b.check_overlap(&a, ob, oa), inverse(a.check_overlap(&b, oa, ob)));
            }
        }
    }
    for p in 0u64..9 {
        let ins = InsertOperation::new(p, vec![b'x', b'y'], 0, 3);
        for &(q, n) in deletes.iter() {
            let del = DeleteOperation::new(q, n, 1);
            assert_eq!(del.check_overlap(&ins, 1, 0), inverse(ins.check_overlap(&del, 0, 1)));
        }
        let other = InsertOperation::new(4, vec![b'z'], 1, 5);
        assert_eq!(other.check_overlap(&ins, 0, 0), inverse(ins.check_overlap(&other, 0, 0)));
    }
}

#[test]
fn identical_deletes_are_not_told_apart() {
    let a = DeleteOperation::new(1, 5, 0);
    let b = DeleteOperation::new(1, 5, 1);
    assert_eq!(a.check_overlap(&b, 0, 0), OverlapResult::OverlapBack(5));
    assert_eq!(b.check_overlap(&a, 0, 0), OverlapResult::OverlapBack(5));
}

#[test]
fn zero_offsets_compare_raw_positions() {
    let a = DeleteOperation::new(3, 4, 0);
    let b = DeleteOperation::new(5, 4, 1);
    assert_eq!(a.check_overlap(&b, 0, 0), OverlapResult::OverlapFront(2));
    assert_eq!(b.check_overlap(&a, 0, 0), OverlapResult::OverlapBack(2));
    let i = InsertOperation::new(4, vec![1], 0, 1);
    assert_eq!(i.check_overlap(&a, 0, 0), OverlapResult::EnclosedBy(1));
    // a shift of both sides by the same offset changes nothing
    assert_eq!(a.check_overlap(&b, 2, 2), OverlapResult::OverlapFront(2));
}

#[test]
fn insert_ties_break_by_site_id() {
    let low = InsertOperation::new(7, vec![b'l'], 0, 1);
    let high = InsertOperation::new(5, vec![b'h'], 0, 9);
    assert_eq!(low.check_overlap(&high, 2, 0), OverlapResult::Precedes);
    assert_eq!(high.check_overlap(&low, 0, 2), OverlapResult::Follows);
    let low = InsertOperation::new(3, vec![b'l'], 0, 4);
    let high = InsertOperation::new(3, vec![b'h'], 0, 6);
    assert_eq!(high.check_overlap(&low, 0, 0), OverlapResult::Follows);
    assert_eq!(low.check_overlap(&high, 0, 0), OverlapResult::Precedes);
}

#[test]
fn crossing_classifier() {
    let del = DeleteOperation::new(2, 6, 0);
    let inside = DeleteOperation::new(5, 1, 1);
    assert_eq!(del.crosses(&inside, 0, 0), CrossResult::Crosses(3));
    assert_eq!(inside.crossed_by(&del, 0, 0), CrossResult::Crosses(3));
    let before = DeleteOperation::new(2, 1, 1);
    assert_eq!(del.crosses(&before, 0, 0), CrossResult::Follows);
    let after = DeleteOperation::new(8, 1, 1);
    assert_eq!(del.crosses(&after, 0, 0), CrossResult::Precedes);
    let ins = InsertOperation::new(4, vec![1, 2], 0, 1);
    assert_eq!(ins.crosses(&inside, 0, 0), CrossResult::Precedes);
    assert_eq!(ins.crosses(&before, 0, 0), CrossResult::Follows);
    assert_eq!(ins.crosses(&inside, -1, 0), CrossResult::Follows);
}

#[test]
fn split_conserves_length() {
    let mut del = DeleteOperation::new(3, 10, 7);
    let tail = del.split(4);
    assert_eq!(del.get_length(), 4);
    assert_eq!(tail.get_length(), 6);
    assert_eq!(del.get_position(), 3);
    assert_eq!(tail.get_position(), 3);
    assert_eq!(tail.get_timestamp(), 7);
    assert_eq!(del.get_length() + tail.get_length(), 10);
}

#[test]
fn operation_accessors() {
    let mut ins = InsertOperation::new(5, vec![b'a', b'b', b'c'], 2, 8);
    assert_eq!(ins.get_increment(), 3);
    assert_eq!(ins.get_value(), &[b'a', b'b', b'c']);
    assert_eq!(ins.get_site_id(), 8);
    ins.set_timestamp(11);
    assert_eq!(ins.get_timestamp(), 11);
    ins.update_position_by(-2);
    assert_eq!(ins.get_position(), 3);
    ins.set_length_to_zero();
    assert_eq!(ins.get_increment(), 3);

    let mut del = DeleteOperation::new(5, 4, 2);
    assert_eq!(del.get_increment(), -4);
    del.update_size_by(-3);
    assert_eq!(del.get_length(), 1);
    del.set_length_to_zero();
    assert_eq!(del.get_length(), 0);
    assert_eq!(del.get_increment(), 0);
}
