//! Bookkeeping of searches and indexing runs that are in progress.

use vstd::prelude::*;

verus! {

/// What an operation in progress is.
#[derive(Debug, Clone, PartialEq, Eq)]
pub enum OperationKind {
    Search { query: String },
    Index { collection: String },
}

/// Searches the service allows at once.
pub const READ_PERMITS: usize = 100;

/// Indexing runs the service allows at once.
pub const WRITE_PERMITS: usize = 10;

/// The operations in progress and the permits left.
#[derive(Debug, Clone, Copy)]
pub struct OperationStats {
    pub active_searches: usize,
    pub active_indexing: usize,
    pub available_read_permits: usize,
    pub available_write_permits: usize,
}

/// How many of `ops` are searches.
pub open spec fn search_count(ops: Seq<OperationKind>) -> nat
    decreases ops.len(),
{
    if ops.len() == 0 {
        0
    } else {
        search_count(ops.drop_last()) + if ops.last() is Search { 1nat } else { 0nat }
    }
}

/// How many of `ops` are indexing runs.
pub open spec fn index_count(ops: Seq<OperationKind>) -> nat
    decreases ops.len(),
{
    if ops.len() == 0 {
        0
    } else {
        index_count(ops.drop_last()) + if ops.last() is Index { 1nat } else { 0nat }
    }
}

/// Every operation is a search or an indexing run.
pub proof fn law_counts_cover_operations(ops: Seq<OperationKind>)
    ensures
        search_count(ops) + index_count(ops) == ops.len(),
    decreases ops.len(),
{
    if ops.len() > 0 {
        law_counts_cover_operations(ops.drop_last());
    }
}

/// The statistics of the operations `ops` in progress, with the permits left.
pub fn operation_stats(ops: &Vec<OperationKind>, read_permits: usize, write_permits: usize) -> (s: OperationStats)
    ensures
        s.active_searches == search_count(ops@),
        s.active_indexing == index_count(ops@),
        s.available_read_permits == read_permits,
        s.available_write_permits == write_permits,
{
    let mut searches: usize = 0;
    let mut indexing: usize = 0;
    let mut i: usize = 0;
    while i < ops.len()
        invariant
            i <= ops.len(),
            searches == search_count(ops@.take(i as int)),
            indexing == index_count(ops@.take(i as int)),
            searches + indexing == i,
        decreases ops.len() - i,
    {
        proof {
            law_counts_cover_operations(ops@.take(i as int));
            assert(ops@.take(i + 1).drop_last() =~= ops@.take(i as int));
        }
        match &ops[i] {
            OperationKind::Search { .. } => searches = searches + 1,
            OperationKind::Index { .. } => indexing = indexing + 1,
        }
        i = i + 1;
    }
    assert(ops@.take(ops.len() as int) =~= ops@);
    OperationStats {
        active_searches: searches,
        active_indexing: indexing,
        available_read_permits: read_permits,
        available_write_permits: write_permits,
    }
}

} // verus!
