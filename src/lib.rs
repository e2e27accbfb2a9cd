//! Conflict-resolution core of an operational-transformation engine.
//!
//! The library classifies how two concurrent edits (inserts and deletes) relate
//! spatially, and folds those classifications into position and length
//! adjustments while an incoming edit is replayed against a local history.
use vstd::prelude::*;

pub mod operations;
pub mod utils;
pub mod wire;

pub use operations::{
    Advance, CrossResult, DeleteOperation, InsertOperation, OpModel, Operation, OperationInternal,
    OverlapResult,
};
pub use utils::{SequenceSwapper, SequenceTransformer};

verus! {

/// A signed offset into a document.
pub type Offset = i64;

/// An unsigned position in a document, in bytes.
pub type Position = u64;

/// What went wrong while reading an operation back from its wire form.
#[derive(PartialEq, Eq, Structural, Debug, Clone, Copy)]
pub enum ErrorKind {
    /// The timestamp carried by an insert has no entry in the site lookup table.
    NoSuchState(u32),
    /// The input ended before the operation was complete.
    UnexpectedEnd,
}

/// An error of the operational-transformation core.
#[derive(PartialEq, Eq, Structural, Debug, Clone, Copy)]
pub struct OTError {
    kind: ErrorKind,
}

impl OTError {
    /// The kind of this error, for use in specifications.
    pub closed spec fn kind_spec(&self) -> ErrorKind {
        self.kind
    }

    /// Creates an error of the given kind.
    pub fn new(kind: ErrorKind) -> (r: OTError)
        ensures
            r.kind_spec() == kind,
    {
        OTError { kind: kind }
    }

    /// The kind of this error.
    pub fn kind(&self) -> (r: ErrorKind)
        ensures
            r == self.kind_spec(),
    {
        self.kind
    }
}

} // verus!
