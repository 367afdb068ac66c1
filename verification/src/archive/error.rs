//! Why an archive could not be opened.

use vstd::prelude::*;

use crate::transducer::TransducerError;
use crate::util::Error;

verus! {

/// The part that a transducer plays in a speller.
#[derive(Debug, Clone, Copy, PartialEq, Eq, Structural)]
pub enum TransducerRole {
    ErrorModel,
    Acceptor,
}

/// Why an archive could not be opened.
#[derive(Debug, Clone, Copy, PartialEq, Eq, Structural)]
pub enum SpellerArchiveError {
    /// The container itself could not be opened.
    File(Error),
    /// The transducer of the given role could not be built.
    Transducer(TransducerRole, TransducerError),
}

} // verus!
