//! What this layer asks of a transducer: that it can be built from a file.

use vstd::prelude::*;

use crate::util::{Error, Filesystem, ToMemmap};

verus! {

/// Why a transducer could not be built.
#[derive(Debug, Clone, Copy, PartialEq, Eq, Structural)]
pub enum TransducerError {
    /// The file could not be opened or read.
    Io(Error),
    /// The file could not be mapped into memory.
    Memmap(Error),
    /// The bytes of the file are no transducer.
    Invalid,
}

/// A weighted finite-state transducer that is loaded from a file.
pub trait Transducer: Sized {
    /// Builds the transducer from the file that `fs` stores under `path`.
    fn from_path<FS>(fs: &FS, path: &str) -> Result<Self, TransducerError> where
        FS: Filesystem,
        FS::File: ToMemmap,
    ;
}

} // verus!
