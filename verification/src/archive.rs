//! Spell-checker archives and the memory mappings that their transducers are
//! read from.

use vstd::prelude::*;

use crate::util::{mapped_bytes, mapping_as_slice};
use memmap::Mmap;
use std::sync::Arc;
use tempdir::TempDir;

pub mod boxf;
pub mod error;
pub mod meta;

pub use self::boxf::BoxSpellerArchive;

verus! {

/// `tempdir::TempDir`, a directory that is removed when the value is
/// dropped. It is only held, never looked into.
#[verifier::external_type_specification]
#[verifier::external_body]
pub struct ExTempDir(tempdir::TempDir);

/// Makes another handle to a shared value with `Arc::clone`. Trusted: the new
/// handle points to the same value as `shared`.
#[verifier::external_body]
pub(crate) fn share<T>(shared: &Arc<T>) -> (other: Arc<T>)
    ensures
        other == *shared,
{
    Arc::clone(shared)
}

/// A mapping of a file that was written to a temporary directory for the
/// purpose, together with that directory. The directory is removed when this
/// value is dropped, and not before.
pub struct TempMmap {
    mmap: Mmap,
    _tempdir: TempDir,
}

impl TempMmap {
    /// The mapping.
    pub closed spec fn mapping(&self) -> Mmap {
        self.mmap
    }

    /// The directory that holds the mapped file.
    pub closed spec fn directory(&self) -> TempDir {
        self._tempdir
    }

    /// Ties `mmap`, a mapping of a file inside `tempdir`, to that directory.
    pub fn new(mmap: Mmap, tempdir: TempDir) -> (temp: TempMmap)
        ensures
            temp.mapping() == mmap,
            temp.directory() == tempdir,
    {
        TempMmap { mmap, _tempdir: tempdir }
    }
}

/// A shared handle to a memory mapping, whichever way the mapping came about.
///
/// Every handle made by `map` shares what the first one holds. For a mapping
/// of a temporary copy that includes the temporary directory, which therefore
/// lasts until the last handle is dropped.
pub enum MmapRef {
    /// A mapping of the backend's own storage.
    Direct(Arc<Mmap>),
    /// A mapping of a temporary copy, for storage that cannot be mapped in place.
    Temp(Arc<TempMmap>),
}

impl MmapRef {
    /// The mapping.
    pub open spec fn mapping(&self) -> Mmap {
        match self {
            MmapRef::Direct(mmap) => **mmap,
            MmapRef::Temp(temp) => temp.mapping(),
        }
    }

    /// The temporary directory that the handle keeps, if it keeps one.
    pub open spec fn directory(&self) -> Option<TempDir> {
        match self {
            MmapRef::Direct(_) => None,
            MmapRef::Temp(temp) => Some(temp.directory()),
        }
    }

    /// Another handle to the same mapping. It shares all that this one holds.
    pub fn map(&self) -> (other: MmapRef)
        ensures
            other == *self,
            other.mapping() == self.mapping(),
            other.directory() == self.directory(),
    {
        match self {
            MmapRef::Direct(mmap) => MmapRef::Direct(share(mmap)),
            MmapRef::Temp(temp) => MmapRef::Temp(share(temp)),
        }
    }

    /// The mapped bytes.
    pub fn bytes(&self) -> (bytes: &[u8])
        ensures
            bytes@ == mapped_bytes(self.mapping()),
    {
        match self {
            MmapRef::Direct(mmap) => mapping_as_slice(mmap),
            MmapRef::Temp(temp) => mapping_as_slice(&temp.mmap),
        }
    }
}

} // verus!
