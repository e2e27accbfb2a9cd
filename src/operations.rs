//! Insert and delete operations, their mathematical model, and the two
//! pairwise classifiers (overlap and crossing).
use vstd::prelude::*;

use crate::{Offset, Position};

verus! {

/// The mathematical value of an operation.
///
/// Positions are integers so that positions adjusted by an offset can be
/// spoken of even where they fall below zero.
pub enum OpModel {
    Insert { position: int, value: Seq<u8>, timestamp: u32, site_id: u32 },
    Delete { position: int, length: int, timestamp: u32 },
}

impl OpModel {
    pub open spec fn position(self) -> int {
        match self {
            OpModel::Insert { position, .. } => position,
            OpModel::Delete { position, .. } => position,
        }
    }

    pub open spec fn timestamp(self) -> u32 {
        match self {
            OpModel::Insert { timestamp, .. } => timestamp,
            OpModel::Delete { timestamp, .. } => timestamp,
        }
    }

    /// Number of bytes the operation covers in the document: zero for an
    /// insert, the length for a delete.
    pub open spec fn width(self) -> int {
        match self {
            OpModel::Insert { .. } => 0,
            OpModel::Delete { length, .. } => length,
        }
    }

    /// The size change the operation applies to the document.
    pub open spec fn increment(self) -> int {
        match self {
            OpModel::Insert { value, .. } => value.len() as int,
            OpModel::Delete { length, .. } => -length,
        }
    }

    /// The same operation moved by `delta`.
    pub open spec fn moved_by(self, delta: int) -> OpModel {
        match self {
            OpModel::Insert { position, value, timestamp, site_id } => OpModel::Insert {
                position: position + delta,
                value,
                timestamp,
                site_id,
            },
            OpModel::Delete { position, length, timestamp } => OpModel::Delete {
                position: position + delta,
                length,
                timestamp,
            },
        }
    }

    /// The same operation with its length changed by `delta` (deletes only).
    pub open spec fn resized_by(self, delta: int) -> OpModel {
        match self {
            OpModel::Insert { .. } => self,
            OpModel::Delete { position, length, timestamp } => OpModel::Delete {
                position,
                length: length + delta,
                timestamp,
            },
        }
    }

    /// The same operation with nothing left to delete; an insert is kept whole.
    pub open spec fn emptied(self) -> OpModel {
        match self {
            OpModel::Insert { .. } => self,
            OpModel::Delete { position, timestamp, .. } => OpModel::Delete {
                position,
                length: 0,
                timestamp,
            },
        }
    }

    /// The same operation carrying another timestamp.
    pub open spec fn with_timestamp(self, t: u32) -> OpModel {
        match self {
            OpModel::Insert { position, value, site_id, .. } => OpModel::Insert {
                position,
                value,
                timestamp: t,
                site_id,
            },
            OpModel::Delete { position, length, .. } => OpModel::Delete {
                position,
                length,
                timestamp: t,
            },
        }
    }

    /// Whether the size change of the operation fits in an `Offset`.
    pub open spec fn increment_fits(self) -> bool {
        match self {
            OpModel::Insert { value, .. } => value.len() <= i64::MAX,
            OpModel::Delete { length, .. } => length <= i64::MAX,
        }
    }
}

/// Whether `m`, adjusted by `offset`, can be compared in `Offset` arithmetic:
/// its position and width fit, and so does its adjusted span.
pub open spec fn adjustable(m: OpModel, offset: int) -> bool {
    &&& 0 <= m.position() <= i64::MAX
    &&& 0 <= m.width() <= i64::MAX
    &&& i64::MIN <= m.position() - offset
    &&& m.position() - offset + m.width() <= i64::MAX
}

/// How two delete spans `[af, ab)` and `[bf, bb)` relate, seen from the
/// first. Equal fronts resolve to `OverlapFront` rather than `EnclosedBy`.
pub open spec fn span_relation(af: int, ab: int, bf: int, bb: int) -> OverlapResult {
    if af < bf {
        if bf < ab {
            if bb < ab {
                OverlapResult::Encloses((bf - af) as u64)
            } else {
                OverlapResult::OverlapFront((ab - bf) as u64)
            }
        } else {
            OverlapResult::Precedes
        }
    } else {
        if af < bb {
            if ab < bb {
                if af == bf {
                    OverlapResult::OverlapFront((ab - bf) as u64)
                } else {
                    OverlapResult::EnclosedBy((af - bf) as u64)
                }
            } else {
                OverlapResult::OverlapBack((bb - af) as u64)
            }
        } else {
            OverlapResult::Follows
        }
    }
}

/// How operation `a` relates to operation `b`, comparing their positions as
/// they stand. Inserts at one position are ordered by ascending site id.
pub open spec fn relation(a: OpModel, b: OpModel) -> OverlapResult {
    match a {
        OpModel::Insert { position: p, site_id: s, .. } => match b {
            OpModel::Insert { position: q, site_id: t, .. } => {
                if p < q || (p == q && s < t) {
                    OverlapResult::Precedes
                } else {
                    OverlapResult::Follows
                }
            },
            OpModel::Delete { position: f, length: l, .. } => {
                if p <= f {
                    OverlapResult::Precedes
                } else if p < f + l {
                    OverlapResult::EnclosedBy((p - f) as u64)
                } else {
                    OverlapResult::Follows
                }
            },
        },
        OpModel::Delete { position: af, length: al, .. } => match b {
            OpModel::Insert { position: p, .. } => {
                if p <= af {
                    OverlapResult::Follows
                } else if p < af + al {
                    OverlapResult::Encloses((p - af) as u64)
                } else {
                    OverlapResult::Precedes
                }
            },
            OpModel::Delete { position: bf, length: bl, .. } => span_relation(
                af,
                af + al,
                bf,
                bf + bl,
            ),
        },
    }
}

/// The overlap classification of `a` against `b`, after subtracting each
/// operation's accumulated offset from its position.
pub open spec fn classify(a: OpModel, b: OpModel, a_offset: int, b_offset: int) -> OverlapResult {
    relation(a.moved_by(-a_offset), b.moved_by(-b_offset))
}

/// Whether the adjusted front of delete `d` falls inside the adjusted span of
/// `a`, before it, or after it.
pub open spec fn cross(a: OpModel, d: OpModel, a_offset: int, d_offset: int) -> CrossResult {
    let mine = a.position() - a_offset;
    let front = d.position() - d_offset;
    if front <= mine {
        CrossResult::Follows
    } else if front < mine + a.width() {
        CrossResult::Crosses((front - mine) as u64)
    } else {
        CrossResult::Precedes
    }
}

/// The part of delete `m` kept in place by a split at `k`.
pub open spec fn split_head(m: OpModel, k: int) -> OpModel {
    match m {
        OpModel::Insert { .. } => m,
        OpModel::Delete { position, timestamp, .. } => OpModel::Delete {
            position,
            length: k,
            timestamp,
        },
    }
}

/// The part of delete `m` handed back by a split at `k`: the rest of the
/// length, at the same position.
pub open spec fn split_tail(m: OpModel, k: int) -> OpModel {
    match m {
        OpModel::Insert { .. } => m,
        OpModel::Delete { position, length, timestamp } => OpModel::Delete {
            position,
            length: length - k,
            timestamp,
        },
    }
}

/// An operation that will make a change to a file.
pub trait Operation {
    /// The mathematical value of this operation.
    spec fn model(&self) -> OpModel;

    /// Gets the position this operation will be performed at.
    fn get_position(&self) -> (r: Position)
        ensures
            r as int == self.model().position(),
    ;

    /// Gets the size change this operation will perform: the length of the
    /// inserted data, or minus the length of the deleted data.
    fn get_increment(&self) -> (r: Offset)
        requires
            self.model().increment_fits(),
        ensures
            r as int == self.model().increment(),
    ;

    /// Gets the current local timestamp of this operation.
    fn get_timestamp(&self) -> (r: u32)
        ensures
            r == self.model().timestamp(),
    ;

    /// Sets the local timestamp of this operation.
    fn set_timestamp(&mut self, new_timestamp: u32)
        ensures
            final(self).model() == old(self).model().with_timestamp(new_timestamp),
    ;

    /// Classifies the insert `other` against this operation.
    fn check_overlap_with_insert(
        &self,
        other: &InsertOperation,
        my_offset: Offset,
        other_offset: Offset,
    ) -> (r: OverlapResult)
        requires
            adjustable(self.model(), my_offset as int),
            adjustable(other.spec_model(), other_offset as int),
        ensures
            r == classify(other.spec_model(), self.model(), other_offset as int, my_offset as int),
    ;

    /// Classifies the delete `other` against this operation.
    fn check_overlap_with_delete(
        &self,
        other: &DeleteOperation,
        my_offset: Offset,
        other_offset: Offset,
    ) -> (r: OverlapResult)
        requires
            adjustable(self.model(), my_offset as int),
            adjustable(other.spec_model(), other_offset as int),
        ensures
            r == classify(other.spec_model(), self.model(), other_offset as int, my_offset as int),
    ;

    /// Whether the front of the delete `other` falls inside this operation.
    fn crosses(&self, other: &DeleteOperation, my_offset: Offset, other_offset: Offset) -> (r:
        CrossResult)
        requires
            adjustable(self.model(), my_offset as int),
            adjustable(other.spec_model(), other_offset as int),
        ensures
            r == cross(self.model(), other.spec_model(), my_offset as int, other_offset as int),
    ;
}

/// The adjustments the transform algorithms make to an operation, and the
/// classifiers they consult.
///
/// Inserts are atomic: `update_size_by` and `split` require a delete, so no
/// verified caller can shrink or split an insert.
pub trait OperationInternal: Operation + Sized {
    /// Moves the operation by `delta`.
    fn update_position_by(&mut self, delta: Offset)
        requires
            0 <= old(self).model().position() <= i64::MAX,
            0 <= old(self).model().position() + delta <= i64::MAX,
        ensures
            final(self).model() == old(self).model().moved_by(delta as int),
    ;

    /// Changes the length of a delete by `delta`.
    fn update_size_by(&mut self, delta: Offset)
        requires
            old(self).model() is Delete,
            old(self).model().width() <= i64::MAX,
            0 <= old(self).model().width() + delta <= i64::MAX,
        ensures
            final(self).model() == old(self).model().resized_by(delta as int),
    ;

    /// Leaves a delete with nothing to remove; an insert is kept as it is.
    fn set_length_to_zero(&mut self)
        ensures
            final(self).model() == old(self).model().emptied(),
    ;

    /// Splits a delete at `split_pos`: this operation keeps the first
    /// `split_pos` bytes, the returned one the rest, both at the same position.
    fn split(&mut self, split_pos: Position) -> (tail: Self)
        requires
            old(self).model() is Delete,
            split_pos <= old(self).model().width(),
        ensures
            final(self).model() == split_head(old(self).model(), split_pos as int),
            tail.model() == split_tail(old(self).model(), split_pos as int),
    ;

    /// Classifies this operation against `other`.
    fn check_overlap<O: Operation>(
        &self,
        other: &O,
        my_offset: Offset,
        other_offset: Offset,
    ) -> (r: OverlapResult)
        requires
            adjustable(self.model(), my_offset as int),
            adjustable(other.model(), other_offset as int),
        ensures
            r == classify(self.model(), other.model(), my_offset as int, other_offset as int),
    ;

}

/// How an incoming operation relates to an existing one.
///
/// The payload is an offset relative to the front of the operation being
/// examined, used to drive a split or a shrink.
#[derive(PartialEq, Eq, Structural, Debug, Clone, Copy)]
pub enum OverlapResult {
    Precedes,
    Follows,
    Encloses(Position),
    OverlapFront(Position),
    OverlapBack(Position),
    EnclosedBy(Position),
}

/// Which side a transform step lets the caller move on.
#[derive(Debug)]
pub enum Advance<O> {
    /// The incoming operation is done with; keep it and move to the next
    /// existing operation.
    Incoming,
    /// The incoming operation is not resolved yet; move to the next existing
    /// operation.
    Existing,
    /// The incoming operation was split: its head is done, and the tail held
    /// here must be run against the rest of the history.
    Neither(O),
}

/// Whether the front of a delete falls inside another operation.
#[derive(PartialEq, Eq, Structural, Debug, Clone, Copy)]
pub enum CrossResult {
    Precedes,
    Follows,
    Crosses(Position),
}

/// Represents an operation which inserts data into a file.
#[derive(PartialEq, Eq, Clone, Debug)]
pub struct InsertOperation {
    timestamp: u32,
    position: Position,
    value: Vec<u8>,
    site_id: u32,
}

/// Represents an operation which removes data from a file.
#[derive(PartialEq, Eq, Clone, Debug)]
pub struct DeleteOperation {
    timestamp: u32,
    position: Position,
    length: Position,
}

impl InsertOperation {
    /// The mathematical value of this insert.
    pub closed spec fn spec_model(&self) -> OpModel {
        OpModel::Insert {
            position: self.position as int,
            value: self.value@,
            timestamp: self.timestamp,
            site_id: self.site_id,
        }
    }

    /// Creates an insert of the bytes `value` at `position` in a file.
    pub fn new(position: Position, value: Vec<u8>, timestamp: u32, site_id: u32) -> (r: InsertOperation)
        ensures
            r.spec_model() == (OpModel::Insert {
                position: position as int,
                value: value@,
                timestamp,
                site_id,
            }),
    {
        InsertOperation { position: position, value: value, timestamp: timestamp, site_id: site_id }
    }

    /// Gets the bytes that will be inserted when this operation is applied.
    pub fn get_value(&self) -> (r: &[u8])
        ensures
            self.spec_model() matches OpModel::Insert { value, .. } && r@ == value,
    {
        self.value.as_slice()
    }

    /// Gets the id of the site this insert came from.
    pub fn get_site_id(&self) -> (r: u32)
        ensures
            self.spec_model() matches OpModel::Insert { site_id, .. } && r == site_id,
    {
        self.site_id
    }

    /// Whether this insert, adjusted by `my_offset`, comes before `other`,
    /// adjusted by `other_offset`; equal positions are ordered by site id.
    fn compare_with_offsets(&self, other: &InsertOperation, my_offset: Offset, other_offset: Offset) -> (r: bool)
        requires
            adjustable(self.spec_model(), my_offset as int),
            adjustable(other.spec_model(), other_offset as int),
        ensures
            r == (relation(
                self.spec_model().moved_by(-my_offset),
                other.spec_model().moved_by(-other_offset),
            ) == OverlapResult::Precedes),
    {
        let my_pos = self.position as Offset - my_offset;
        let other_pos = other.position as Offset - other_offset;
        my_pos < other_pos || my_pos == other_pos && self.site_id < other.site_id
    }
}

impl DeleteOperation {
    /// The mathematical value of this delete.
    pub closed spec fn spec_model(&self) -> OpModel {
        OpModel::Delete {
            position: self.position as int,
            length: self.length as int,
            timestamp: self.timestamp,
        }
    }

    /// Creates a delete of `length` bytes at `position` in a file.
    pub fn new(position: Position, length: Position, timestamp: u32) -> (r: DeleteOperation)
        ensures
            r.spec_model() == (OpModel::Delete {
                position: position as int,
                length: length as int,
                timestamp,
            }),
    {
        DeleteOperation { position: position, length: length, timestamp: timestamp }
    }

    /// Gets the number of bytes that will be removed when the delete is applied.
    pub fn get_length(&self) -> (r: Position)
        ensures
            self.spec_model() matches OpModel::Delete { length, .. } && r as int == length,
    {
        self.length
    }

    /// Whether the front of `other` falls inside this delete: `other` is
    /// classified against this operation with `crosses`.
    pub fn crossed_by<O: Operation>(&self, other: &O, my_offset: Offset, other_offset: Offset) -> (r: CrossResult)
        requires
            adjustable(self.spec_model(), my_offset as int),
            adjustable(other.model(), other_offset as int),
        ensures
            r == cross(other.model(), self.spec_model(), other_offset as int, my_offset as int),
    {
        other.crosses(self, other_offset, my_offset)
    }
}

impl Operation for InsertOperation {
    open spec fn model(&self) -> OpModel {
        self.spec_model()
    }

    fn get_position(&self) -> (r: Position) {
        self.position
    }

    fn get_increment(&self) -> (r: Offset) {
        self.value.len() as Offset
    }

    fn get_timestamp(&self) -> (r: u32) {
        self.timestamp
    }

    fn set_timestamp(&mut self, new_timestamp: u32) {
        self.timestamp = new_timestamp;
    }

    fn check_overlap_with_insert(&self, other: &InsertOperation, my_offset: Offset, other_offset: Offset) -> (r: OverlapResult) {
        if other.compare_with_offsets(self, other_offset, my_offset) {
            OverlapResult::Precedes
        } else {
            OverlapResult::Follows
        }
    }

    fn check_overlap_with_delete(&self, other: &DeleteOperation, my_offset: Offset, other_offset: Offset) -> (r: OverlapResult) {
        let my_pos = self.position as Offset - my_offset;
        let other_front = other.position as Offset - other_offset;
        let other_back = other_front + other.length as Offset;
        if my_pos <= other_front {
            OverlapResult::Follows
        } else if my_pos < other_back {
            OverlapResult::Encloses((my_pos - other_front) as Position)
        } else {
            OverlapResult::Precedes
        }
    }

    fn crosses(&self, other: &DeleteOperation, my_offset: Offset, other_offset: Offset) -> (r: CrossResult) {
        if other.position as Offset - other_offset <= self.position as Offset - my_offset {
            CrossResult::Follows
        } else {
            CrossResult::Precedes
        }
    }
}

impl OperationInternal for InsertOperation {
    fn update_position_by(&mut self, delta: Offset) {
        self.position = (self.position as Offset + delta) as Position;
    }

    /// An insert is never resized: the precondition admits no insert.
    fn update_size_by(&mut self, _delta: Offset) {
    }

    /// An insert is kept whole, even in the middle of an existing delete.
    fn set_length_to_zero(&mut self) {
    }

    /// An insert is never split: the precondition admits no insert.
    fn split(&mut self, _split_pos: Position) -> (tail: InsertOperation) {
        InsertOperation {
            timestamp: self.timestamp,
            position: self.position,
            value: Vec::new(),
            site_id: self.site_id,
        }
    }

    fn check_overlap<O: Operation>(&self, other: &O, my_offset: Offset, other_offset: Offset) -> (r: OverlapResult) {
        other.check_overlap_with_insert(self, other_offset, my_offset)
    }

}

impl Operation for DeleteOperation {
    open spec fn model(&self) -> OpModel {
        self.spec_model()
    }

    fn get_position(&self) -> (r: Position) {
        self.position
    }

    fn get_increment(&self) -> (r: Offset) {
        -(self.length as Offset)
    }

    fn get_timestamp(&self) -> (r: u32) {
        self.timestamp
    }

    fn set_timestamp(&mut self, new_timestamp: u32) {
        self.timestamp = new_timestamp;
    }

    fn check_overlap_with_insert(&self, other: &InsertOperation, my_offset: Offset, other_offset: Offset) -> (r: OverlapResult) {
        let my_front = self.position as Offset - my_offset;
        let my_back = my_front + self.length as Offset;
        let other_pos = other.position as Offset - other_offset;
        if other_pos <= my_front {
            OverlapResult::Precedes
        } else if other_pos < my_back {
            OverlapResult::EnclosedBy((other_pos - my_front) as Position)
        } else {
            OverlapResult::Follows
        }
    }

    fn check_overlap_with_delete(&self, other: &DeleteOperation, my_offset: Offset, other_offset: Offset) -> (r: OverlapResult) {
        let my_front = self.position as Offset - my_offset;
        let my_back = my_front + self.length as Offset;
        let other_front = other.position as Offset - other_offset;
        let other_back = other_front + other.length as Offset;
        if other_front < my_front {
            if my_front < other_back {
                if my_back < other_back {
                    OverlapResult::Encloses((my_front - other_front) as Position)
                } else {
                    OverlapResult::OverlapFront((other_back - my_front) as Position)
                }
            } else {
                OverlapResult::Precedes
            }
        } else if other_front < my_back {
            if other_back < my_back {
                if other_front == my_front {
                    OverlapResult::OverlapFront((other_back - my_front) as Position)
                } else {
                    OverlapResult::EnclosedBy((other_front - my_front) as Position)
                }
            } else {
                OverlapResult::OverlapBack((my_back - other_front) as Position)
            }
        } else {
            OverlapResult::Follows
        }
    }

    fn crosses(&self, other: &DeleteOperation, my_offset: Offset, other_offset: Offset) -> (r: CrossResult) {
        let my_front = self.position as Offset - my_offset;
        let my_back = my_front + self.length as Offset;
        let other_front = other.position as Offset - other_offset;
        if other_front <= my_front {
            CrossResult::Follows
        } else if other_front < my_back {
            CrossResult::Crosses((other_front - my_front) as Position)
        } else {
            CrossResult::Precedes
        }
    }
}

impl OperationInternal for DeleteOperation {
    fn update_position_by(&mut self, delta: Offset) {
        self.position = (self.position as Offset + delta) as Position;
    }

    fn update_size_by(&mut self, delta: Offset) {
        self.length = (self.length as Offset + delta) as Position;
    }

    fn set_length_to_zero(&mut self) {
        self.length = 0;
    }

    fn split(&mut self, split_pos: Position) -> (tail: DeleteOperation) {
        let tail = DeleteOperation::new(self.position, self.length - split_pos, self.timestamp);
        self.length = split_pos;
        tail
    }

    fn check_overlap<O: Operation>(&self, other: &O, my_offset: Offset, other_offset: Offset) -> (r: OverlapResult) {
        other.check_overlap_with_delete(self, other_offset, my_offset)
    }

}

/// The classification seen from the other side: `Precedes` and `Follows`,
/// `Encloses` and `EnclosedBy`, `OverlapFront` and `OverlapBack` trade places,
/// with the same payload.
pub open spec fn inverse(r: OverlapResult) -> OverlapResult {
    match r {
        OverlapResult::Precedes => OverlapResult::Follows,
        OverlapResult::Follows => OverlapResult::Precedes,
        OverlapResult::Encloses(k) => OverlapResult::EnclosedBy(k),
        OverlapResult::EnclosedBy(k) => OverlapResult::Encloses(k),
        OverlapResult::OverlapFront(k) => OverlapResult::OverlapBack(k),
        OverlapResult::OverlapBack(k) => OverlapResult::OverlapFront(k),
    }
}

/// Pairs that the classifier cannot tell apart from either side: two inserts
/// of one site at one adjusted position, or two deletes at one adjusted front
/// that are equally long or of which one is empty.
pub open spec fn indistinct(a: OpModel, b: OpModel, a_offset: int, b_offset: int) -> bool {
    match a {
        OpModel::Insert { position: p, site_id: s, .. } => match b {
            OpModel::Insert { position: q, site_id: t, .. } => p - a_offset == q - b_offset && s == t,
            OpModel::Delete { .. } => false,
        },
        OpModel::Delete { position: p, length: l, .. } => match b {
            OpModel::Insert { .. } => false,
            OpModel::Delete { position: q, length: n, .. } => {
                &&& p - a_offset == q - b_offset
                &&& (l == n || l == 0 || n == 0)
            },
        },
    }
}

/// Classifier symmetry: classifying `b` against `a` gives the inverse of
/// classifying `a` against `b`, for every pair the classifier can tell apart.
pub proof fn lemma_classify_symmetric(a: OpModel, b: OpModel, a_offset: int, b_offset: int)
    requires
        a.width() >= 0,
        b.width() >= 0,
        !indistinct(a, b, a_offset, b_offset),
    ensures
        classify(b, a, b_offset, a_offset) == inverse(classify(a, b, a_offset, b_offset)),
{
}

/// With both offsets zero, classification compares the positions as they stand.
pub proof fn lemma_classify_zero_offsets(a: OpModel, b: OpModel)
    ensures
        classify(a, b, 0, 0) == relation(a, b),
{
    assert(a.moved_by(0) == a);
    assert(b.moved_by(0) == b);
}

/// Two inserts at one adjusted position are ordered by ascending site id,
/// whichever of them is classified against the other.
pub proof fn lemma_insert_tie_break(a: OpModel, b: OpModel, a_offset: int, b_offset: int)
    requires
        a is Insert,
        b is Insert,
        a.position() - a_offset == b.position() - b_offset,
        a->site_id < b->site_id,
    ensures
        classify(a, b, a_offset, b_offset) == OverlapResult::Precedes,
        classify(b, a, b_offset, a_offset) == OverlapResult::Follows,
{
}

/// The document `doc` after the delete `d` is applied to it.
pub open spec fn apply_delete(doc: Seq<u8>, d: OpModel) -> Seq<u8> {
    doc.subrange(0, d.position()) + doc.subrange(d.position() + d.width(), doc.len() as int)
}

/// Split conservation: the head and tail of a delete split at `k` are as long
/// as the delete, and applying the head and then the tail removes exactly the
/// bytes the whole delete removes: the tail takes up where the head ends.
pub proof fn lemma_split_conserves(m: OpModel, k: int, doc: Seq<u8>)
    requires
        m is Delete,
        0 <= k <= m.width(),
        0 <= m.position(),
        m.position() + m.width() <= doc.len(),
    ensures
        split_head(m, k).width() + split_tail(m, k).width() == m.width(),
        split_head(m, k).position() == m.position(),
        split_tail(m, k).position() == m.position(),
        apply_delete(apply_delete(doc, split_head(m, k)), split_tail(m, k)) == apply_delete(doc, m),
{
    let p = m.position();
    let once = apply_delete(doc, split_head(m, k));
    assert(once =~= doc.subrange(0, p) + doc.subrange(p + k, doc.len() as int));
    assert(apply_delete(once, split_tail(m, k)) =~= apply_delete(doc, m));
}

} // verus!
