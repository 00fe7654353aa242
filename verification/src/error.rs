//! The ways in which a call to a store can fail.

use vstd::prelude::*;

verus! {

/// Why a store did not carry out what it was asked. Each of them is
/// reported to the client whose command set the call off, and none is ever
/// read as "online" or "offline".
#[derive(Debug, Clone, Copy, PartialEq, Eq, Structural)]
pub enum StoreError {
    /// No connection to the store could be had.
    Connection,
    /// The store did not accept the statement.
    Prepare,
    /// An argument could not be bound to the statement.
    Bind,
    /// The store did not carry the statement out.
    Execute,
    /// What the store answered could not be read.
    Read,
}

impl StoreError {
    /// A short description for the client.
    pub fn describe(&self) -> (text: &'static str)
        ensures
            text@ == match *self {
                StoreError::Connection => "failed to reach the store"@,
                StoreError::Prepare => "failed to prepare the statement"@,
                StoreError::Bind => "failed to bind the arguments"@,
                StoreError::Execute => "failed to execute the statement"@,
                StoreError::Read => "failed to read the answer"@,
            },
    {
        match self {
            StoreError::Connection => "failed to reach the store",
            StoreError::Prepare => "failed to prepare the statement",
            StoreError::Bind => "failed to bind the arguments",
            StoreError::Execute => "failed to execute the statement",
            StoreError::Read => "failed to read the answer",
        }
    }
}

} // verus!
