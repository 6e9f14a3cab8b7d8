//! The flag by which a search is told to stop.

use vstd::prelude::*;
use std::sync::Arc;
use std::sync::atomic::{AtomicBool, Ordering};

verus! {

/// A flag shared between a miner and whoever may stop it. It is raised when a
/// search begins and lowered when the search ends or is told to stop. Other
/// threads may change it at any moment, so nothing is known of what a read
/// returns.
#[derive(Debug)]
pub struct MiningFlag {
    cell: Arc<AtomicBool>,
}

/// Trusted: `Arc::clone`, which gives a second pointer to the same cell, not
/// a cell of its own.
#[verifier::external_body]
fn share(cell: &Arc<AtomicBool>) -> (shared: Arc<AtomicBool>)
    ensures
        shared == *cell,
{
    cell.clone()
}

impl MiningFlag {
    /// A flag of its own, lowered.
    pub fn new() -> Self {
        MiningFlag { cell: Arc::new(AtomicBool::new(false)) }
    }

    /// Another handle on this flag, for the party that may stop the search.
    pub fn handle(&self) -> (handle: Self)
        ensures
            handle.shares_with(self),
    {
        MiningFlag { cell: share(&self.cell) }
    }

    /// Raises or lowers the flag.
    pub fn set(&self, active: bool) {
        self.cell.store(active, Ordering::SeqCst);
    }

    /// Reads the flag as it stands at this moment.
    pub fn is_set(&self) -> bool {
        self.cell.load(Ordering::SeqCst)
    }

    /// Whether this handle and `other` are on one and the same flag, so that
    /// what is set through the one is read through the other.
    pub closed spec fn shares_with(&self, other: &MiningFlag) -> bool {
        self.cell == other.cell
    }
}

} // verus!
