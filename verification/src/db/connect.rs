use vstd::prelude::*;

verus! {

/// Failure to reach the relational store; carries the driver's message.
#[derive(Debug)]
pub enum Error {
    FailedConnectingToDatabase { error: String },
}

} // verus!
