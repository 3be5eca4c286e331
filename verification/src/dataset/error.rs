//! A failure that concerns a dataset as a whole.

use vstd::prelude::*;

verus! {

/// A failure described by one sentence.
#[derive(Debug, PartialEq, Eq)]
pub struct DatasetError {
    pub message: String,
}

impl DatasetError {
    pub fn new(message: String) -> (error: DatasetError)
        ensures
            error.message == message,
    {
        DatasetError { message }
    }

    /// The sentence shown to a client.
    pub fn message(&self) -> (text: String)
        ensures
            text@ == self.message@,
    {
        self.message.clone()
    }
}

} // verus!
