//! The two transform algorithms: `SequenceTransformer` folds overlap
//! classifications into position and length adjustments, and
//! `SequenceSwapper` reorders an operation around the deletes it crosses.
use vstd::prelude::*;

use crate::operations::{
    adjustable, classify, cross, split_head, split_tail, Advance, CrossResult, DeleteOperation,
    OpModel, Operation, OperationInternal, OverlapResult,
};
use crate::Offset;

verus! {

/// Whether `x` fits in an `Offset`.
pub open spec fn fits(x: int) -> bool {
    i64::MIN <= x <= i64::MAX
}

/// Whether `m` can be moved by `delta` and still stand at a position that
/// fits in an `Offset`.
pub open spec fn movable(m: OpModel, delta: int) -> bool {
    &&& fits(delta)
    &&& 0 <= m.position() <= i64::MAX
    &&& 0 <= m.position() + delta <= i64::MAX
}

/// The mathematical value of an `Advance`, with the operation it may hold
/// replaced by its model.
pub open spec fn advance_model<O: Operation>(a: Advance<O>) -> Advance<OpModel> {
    match a {
        Advance::Incoming => Advance::Incoming,
        Advance::Existing => Advance::Existing,
        Advance::Neither(t) => Advance::Neither(t.model()),
    }
}

/// The accumulators of a `SequenceTransformer`.
pub struct TransformState {
    pub incoming_offset: int,
    pub existing_offset: int,
    pub total_overlap: int,
}

/// What one step of a `SequenceTransformer` yields: its new accumulators, the
/// adjusted incoming operation, and which side advances.
pub struct TransformOutcome {
    pub state: TransformState,
    pub incoming: OpModel,
    pub advance: Advance<OpModel>,
}

/// The effect of classification `c` of incoming `m` against existing `e` on
/// the accumulators `s` and on `m`.
pub open spec fn transform_step(
    c: OverlapResult,
    s: TransformState,
    m: OpModel,
    e: OpModel,
) -> TransformOutcome {
    let io = s.incoming_offset;
    let eo = s.existing_offset;
    let to = s.total_overlap;
    match c {
        OverlapResult::Precedes => TransformOutcome {
            state: TransformState { incoming_offset: io + m.increment(), existing_offset: eo, total_overlap: to },
            incoming: m.moved_by(eo + to),
            advance: Advance::Incoming,
        },
        OverlapResult::Follows => TransformOutcome {
            state: TransformState { incoming_offset: io, existing_offset: eo + e.increment(), total_overlap: to },
            incoming: m,
            advance: Advance::Existing,
        },
        OverlapResult::EnclosedBy(k) => TransformOutcome {
            state: TransformState {
                incoming_offset: io + m.increment(),
                existing_offset: eo,
                total_overlap: to - m.increment(),
            },
            incoming: m.moved_by(eo + to - k).emptied(),
            advance: Advance::Incoming,
        },
        OverlapResult::Encloses(k) => TransformOutcome {
            state: TransformState {
                incoming_offset: io + split_head(m, k as int).increment(),
                existing_offset: eo,
                total_overlap: to,
            },
            incoming: split_head(m, k as int).moved_by(eo + to),
            advance: Advance::Neither(split_tail(m, k as int)),
        },
        OverlapResult::OverlapBack(a) => TransformOutcome {
            state: TransformState {
                incoming_offset: io - a,
                existing_offset: eo + e.increment(),
                total_overlap: to + a,
            },
            incoming: m.resized_by(-a),
            advance: Advance::Existing,
        },
        OverlapResult::OverlapFront(a) => TransformOutcome {
            state: TransformState {
                incoming_offset: io + m.increment(),
                existing_offset: eo,
                total_overlap: to + a,
            },
            incoming: m.resized_by(-a).moved_by(eo + to),
            advance: Advance::Incoming,
        },
    }
}

/// Whether every sum that `transform_step` makes for classification `c` fits
/// in an `Offset`, and every position it moves to stays in range.
pub open spec fn step_in_range(c: OverlapResult, s: TransformState, m: OpModel, e: OpModel) -> bool {
    let io = s.incoming_offset;
    let eo = s.existing_offset;
    let to = s.total_overlap;
    &&& m.increment_fits()
    &&& e.increment_fits()
    &&& match c {
        OverlapResult::Precedes => fits(io + m.increment()) && movable(m, eo + to),
        OverlapResult::Follows => fits(eo + e.increment()),
        OverlapResult::EnclosedBy(k) => {
            &&& fits(io + m.increment())
            &&& fits(eo + to)
            &&& movable(m, eo + to - k)
            &&& fits(to - m.increment())
        },
        OverlapResult::Encloses(k) => fits(io - k) && movable(m, eo + to),
        OverlapResult::OverlapBack(a) => fits(eo + e.increment()) && fits(to + a) && fits(io - a),
        OverlapResult::OverlapFront(a) => {
            &&& fits(io + m.increment())
            &&& movable(m, eo + to)
            &&& fits(to + a)
        },
    }
}

/// One step of a replay: incoming `m` against existing `e` from accumulators `s`.
pub open spec fn transform(s: TransformState, m: OpModel, e: OpModel) -> TransformOutcome {
    transform_step(classify(m, e, s.incoming_offset, s.existing_offset), s, m, e)
}

/// Whether `transform(s, m, e)` can be computed in `Offset` arithmetic.
pub open spec fn transform_in_range(s: TransformState, m: OpModel, e: OpModel) -> bool {
    &&& adjustable(m, s.incoming_offset)
    &&& adjustable(e, s.existing_offset)
    &&& step_in_range(classify(m, e, s.incoming_offset, s.existing_offset), s, m, e)
}

/// Replays an incoming operation against an ordered history, one existing
/// operation at a time, resolving overlaps.
pub struct SequenceTransformer {
    incoming_offset: Offset,
    existing_offset: Offset,
    total_overlap: Offset,
}

impl View for SequenceTransformer {
    type V = TransformState;

    closed spec fn view(&self) -> TransformState {
        TransformState {
            incoming_offset: self.incoming_offset as int,
            existing_offset: self.existing_offset as int,
            total_overlap: self.total_overlap as int,
        }
    }
}

impl SequenceTransformer {
    /// A transformer at the start of a replay: every accumulator is zero.
    pub fn new() -> (r: SequenceTransformer)
        ensures
            r@ == (TransformState { incoming_offset: 0, existing_offset: 0, total_overlap: 0 }),
    {
        SequenceTransformer { incoming_offset: 0, existing_offset: 0, total_overlap: 0 }
    }

    /// Transforms `incoming_operation` against `existing_operation`, updating
    /// the accumulators, and says which side the caller moves on.
    pub fn transform_operations<O1: OperationInternal, O2: Operation>(
        &mut self,
        incoming_operation: &mut O1,
        existing_operation: &O2,
    ) -> (r: Advance<O1>)
        requires
            transform_in_range(old(self)@, old(incoming_operation).model(), existing_operation.model()),
        ensures
            ({
                let out = transform(old(self)@, old(incoming_operation).model(), existing_operation.model());
                &&& final(self)@ == out.state
                &&& final(incoming_operation).model() == out.incoming
                &&& advance_model(r) == out.advance
            }),
    {
        let overlap_result = incoming_operation.check_overlap(
            existing_operation,
            self.incoming_offset,
            self.existing_offset,
        );
        self.update_with(overlap_result, incoming_operation, existing_operation)
    }

    /// The accumulated size change of the incoming side.
    pub fn incoming_offset(&self) -> (r: Offset)
        ensures
            r as int == self@.incoming_offset,
    {
        self.incoming_offset
    }

    /// The accumulated size change of the existing side.
    pub fn existing_offset(&self) -> (r: Offset)
        ensures
            r as int == self@.existing_offset,
    {
        self.existing_offset
    }

    /// The length taken off the incoming operation by overlaps so far.
    pub fn total_overlap(&self) -> (r: Offset)
        ensures
            r as int == self@.total_overlap,
    {
        self.total_overlap
    }

    /// Moves an incoming operation that has passed the whole history.
    pub fn transform_single<O: OperationInternal>(&self, operation: &mut O)
        requires
            movable(old(operation).model(), self@.existing_offset + self@.total_overlap),
        ensures
            final(operation).model() == old(operation).model().moved_by(
                self@.existing_offset + self@.total_overlap,
            ),
    {
        operation.update_position_by(self.existing_offset + self.total_overlap);
    }

    fn update_with<O1: OperationInternal, O2: Operation>(
        &mut self,
        overlap: OverlapResult,
        incoming_operation: &mut O1,
        existing_operation: &O2,
    ) -> (r: Advance<O1>)
        requires
            overlap == classify(
                old(incoming_operation).model(),
                existing_operation.model(),
                old(self)@.incoming_offset,
                old(self)@.existing_offset,
            ),
            transform_in_range(old(self)@, old(incoming_operation).model(), existing_operation.model()),
        ensures
            ({
                let out = transform_step(overlap, old(self)@, old(incoming_operation).model(), existing_operation.model());
                &&& final(self)@ == out.state
                &&& final(incoming_operation).model() == out.incoming
                &&& advance_model(r) == out.advance
            }),
    {
        match overlap {
            OverlapResult::Precedes => {
                self.incoming_offset = self.incoming_offset + incoming_operation.get_increment();
                incoming_operation.update_position_by(self.existing_offset + self.total_overlap);
                Advance::Incoming
            },
            OverlapResult::Follows => {
                self.existing_offset = self.existing_offset + existing_operation.get_increment();
                Advance::Existing
            },
            OverlapResult::EnclosedBy(front_difference) => {
                self.incoming_offset = self.incoming_offset + incoming_operation.get_increment();
                // move to the front of the existing operation
                incoming_operation.update_position_by(
                    self.existing_offset + self.total_overlap - front_difference as Offset,
                );
                self.total_overlap = self.total_overlap - incoming_operation.get_increment();
                // the existing delete has already removed what this one covers
                incoming_operation.set_length_to_zero();
                Advance::Incoming
            },
            OverlapResult::Encloses(front_difference) => {
                let new_op = incoming_operation.split(front_difference);
                self.incoming_offset = self.incoming_offset + incoming_operation.get_increment();
                incoming_operation.update_position_by(self.existing_offset + self.total_overlap);
                Advance::Neither(new_op)
            },
            OverlapResult::OverlapBack(amount) => {
                self.existing_offset = self.existing_offset + existing_operation.get_increment();
                self.total_overlap = self.total_overlap + amount as Offset;
                self.incoming_offset = self.incoming_offset - amount as Offset;
                incoming_operation.update_size_by(-(amount as Offset));
                Advance::Existing
            },
            OverlapResult::OverlapFront(amount) => {
                self.incoming_offset = self.incoming_offset + incoming_operation.get_increment();
                incoming_operation.update_size_by(-(amount as Offset));
                incoming_operation.update_position_by(self.existing_offset + self.total_overlap);
                self.total_overlap = self.total_overlap + amount as Offset;
                Advance::Incoming
            },
        }
    }
}

/// The accumulators of a `SequenceSwapper`.
pub struct SwapState {
    pub incoming_offset: int,
    pub existing_offset: int,
}

/// What one step of a `SequenceSwapper` yields: its new accumulators, the
/// adjusted incoming and existing operations, and which side advances.
pub struct SwapOutcome {
    pub state: SwapState,
    pub incoming: OpModel,
    pub existing: OpModel,
    pub advance: Advance<OpModel>,
}

/// The crossing classification that a swap step of incoming `m` around the
/// existing delete `e` acts on.
pub open spec fn swap_cross(s: SwapState, m: OpModel, e: OpModel) -> CrossResult {
    cross(m, e, s.incoming_offset + s.existing_offset, s.existing_offset)
}

/// One swap step of incoming `m` around the existing delete `e` from
/// accumulators `s`.
pub open spec fn swap(s: SwapState, m: OpModel, e: OpModel) -> SwapOutcome {
    let io = s.incoming_offset;
    let eo = s.existing_offset;
    match swap_cross(s, m, e) {
        CrossResult::Precedes => SwapOutcome {
            state: SwapState { incoming_offset: io + m.increment(), existing_offset: eo },
            incoming: m.moved_by(-eo),
            existing: e,
            advance: Advance::Incoming,
        },
        CrossResult::Follows => SwapOutcome {
            state: SwapState { incoming_offset: io, existing_offset: eo + e.increment() },
            incoming: m,
            existing: e.moved_by(io),
            advance: Advance::Existing,
        },
        CrossResult::Crosses(k) => SwapOutcome {
            state: SwapState {
                incoming_offset: io + split_head(m, k as int).increment(),
                existing_offset: eo,
            },
            incoming: split_head(m, k as int).moved_by(-eo),
            existing: e,
            advance: Advance::Neither(split_tail(m, k as int)),
        },
    }
}

/// Whether `swap(s, m, e)` can be computed in `Offset` arithmetic.
pub open spec fn swap_in_range(s: SwapState, m: OpModel, e: OpModel) -> bool {
    let io = s.incoming_offset;
    let eo = s.existing_offset;
    &&& fits(io + eo)
    &&& adjustable(m, io + eo)
    &&& adjustable(e, eo)
    &&& m.increment_fits()
    &&& e.increment_fits()
    &&& match swap_cross(s, m, e) {
        CrossResult::Precedes => fits(io + m.increment()) && movable(m, -eo),
        CrossResult::Follows => fits(eo + e.increment()) && movable(e, io),
        CrossResult::Crosses(k) => fits(io - k) && movable(m, -eo),
    }
}

/// Reorders an incoming operation around the deletes of a history that it
/// may cross.
pub struct SequenceSwapper {
    incoming_offset: Offset,
    existing_offset: Offset,
}

impl View for SequenceSwapper {
    type V = SwapState;

    closed spec fn view(&self) -> SwapState {
        SwapState {
            incoming_offset: self.incoming_offset as int,
            existing_offset: self.existing_offset as int,
        }
    }
}

impl SequenceSwapper {
    /// A swapper at the start of a pass: both accumulators are zero.
    pub fn new() -> (r: SequenceSwapper)
        ensures
            r@ == (SwapState { incoming_offset: 0, existing_offset: 0 }),
    {
        SequenceSwapper { incoming_offset: 0, existing_offset: 0 }
    }

    /// Swaps `incoming_operation` around the delete `existing_operation`,
    /// updating the accumulators, and says which side the caller moves on.
    pub fn swap_operations<O: OperationInternal>(
        &mut self,
        incoming_operation: &mut O,
        existing_operation: &mut DeleteOperation,
    ) -> (r: Advance<O>)
        requires
            swap_in_range(old(self)@, old(incoming_operation).model(), old(existing_operation).model()),
        ensures
            ({
                let out = swap(old(self)@, old(incoming_operation).model(), old(existing_operation).model());
                &&& final(self)@ == out.state
                &&& final(incoming_operation).model() == out.incoming
                &&& final(existing_operation).model() == out.existing
                &&& advance_model(r) == out.advance
            }),
    {
        let cross_result = existing_operation.crossed_by(
            incoming_operation,
            self.existing_offset,
            self.incoming_offset + self.existing_offset,
        );
        match cross_result {
            CrossResult::Precedes => {
                self.incoming_offset = self.incoming_offset + incoming_operation.get_increment();
                incoming_operation.update_position_by(-self.existing_offset);
                Advance::Incoming
            },
            CrossResult::Follows => {
                self.existing_offset = self.existing_offset + existing_operation.get_increment();
                existing_operation.update_position_by(self.incoming_offset);
                Advance::Existing
            },
            CrossResult::Crosses(front_difference) => {
                let new_op = incoming_operation.split(front_difference);
                self.incoming_offset = self.incoming_offset + incoming_operation.get_increment();
                incoming_operation.update_position_by(-self.existing_offset);
                Advance::Neither(new_op)
            },
        }
    }

    /// The accumulated size change of the incoming side.
    pub fn incoming_offset(&self) -> (r: Offset)
        ensures
            r as int == self@.incoming_offset,
    {
        self.incoming_offset
    }

    /// The accumulated size change of the existing side.
    pub fn existing_offset(&self) -> (r: Offset)
        ensures
            r as int == self@.existing_offset,
    {
        self.existing_offset
    }

    /// Moves an incoming operation that has passed the whole history.
    pub fn swap_single<O: OperationInternal>(&self, operation: &mut O)
        requires
            movable(old(operation).model(), -self@.existing_offset),
        ensures
            final(operation).model() == old(operation).model().moved_by(-self@.existing_offset),
    {
        operation.update_position_by(-self.existing_offset);
    }

    /// Moves an existing delete once the incoming side is exhausted.
    pub fn swap_existing(&self, operation: &mut DeleteOperation)
        requires
            movable(old(operation).model(), self@.incoming_offset),
        ensures
            final(operation).model() == old(operation).model().moved_by(self@.incoming_offset),
    {
        operation.update_position_by(self.incoming_offset);
    }
}

} // verus!
