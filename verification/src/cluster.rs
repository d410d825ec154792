//! The `cluster` command.

use crate::paginate::PaginationState;
use vstd::prelude::*;

verus! {

/// What to do with clusters.
#[derive(Debug)]
pub enum Operation {
    /// List all clusters.
    List,
}

/// The arguments of the `cluster` command.
#[derive(Debug)]
pub struct Args {
    pub operation: Operation,
}

impl Args {
    /// Begins the command. Listing clusters carries no state from page to
    /// page, and starts with nothing fetched.
    pub fn run(self) -> (listing: PaginationState<()>)
        ensures
            listing == PaginationState::Start(()),
    {
        match self.operation {
            Operation::List => PaginationState::Start(()),
        }
    }
}

} // verus!
