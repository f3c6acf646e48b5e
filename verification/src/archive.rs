//! Records the archiver writes about batches it dumped or deleted.
//! Instants are millisecond timestamps.

use vstd::prelude::*;
use crate::ids::{Id, IdPrefix};

verus! {

/// One batch of records deleted from a collection.
#[derive(Debug, Clone)]
pub struct Deleted {
    pub reference: Id,
    pub start_time: i64,
    pub end_time: i64,
    pub deleted_count: i64,
}

impl Deleted {
    pub fn new(reference: Id, start_time: i64, end_time: i64, deleted_count: i64) -> (r: Deleted)
        ensures
            r == (Deleted { reference, start_time, end_time, deleted_count }),
    {
        Deleted { reference, start_time, end_time, deleted_count }
    }

    pub fn reference(&self) -> (r: Id)
        ensures
            r == self.reference,
    {
        self.reference.clone()
    }
}

/// One batch of records dumped out of a collection, stamped when the
/// dump was written.
#[derive(Debug, Clone)]
pub struct Dumped {
    pub id: Id,
    pub reference: Id,
    pub dumped_at: i64,
    pub start_time: i64,
    pub end_time: i64,
}

impl Dumped {
    /// A dump record for the batch `id` covers, written at `dumped_at`.
    pub fn new(id: Id, start_time: i64, end_time: i64, dumped_at: i64) -> (r: Dumped)
        ensures
            r.reference == id,
            r.dumped_at == dumped_at,
            r.start_time == start_time,
            r.end_time == end_time,
    {
        Dumped { id: Id::now(IdPrefix::Archive), reference: id, dumped_at, start_time, end_time }
    }

    pub fn start_time(&self) -> (r: i64)
        ensures
            r == self.start_time,
    {
        self.start_time
    }

    pub fn end_time(&self) -> (r: i64)
        ensures
            r == self.end_time,
    {
        self.end_time
    }

    pub fn reference(&self) -> (r: Id)
        ensures
            r == self.reference,
    {
        self.reference.clone()
    }
}

} // verus!
