//! Archives stored in a box container.

use vstd::prelude::*;

use super::error::{SpellerArchiveError, TransducerRole};
use super::meta::SpellerMetadata;
use super::share;
use crate::speller::Speller;
use crate::transducer::{Transducer, TransducerError};
use crate::util::{Error, Filesystem, ToMemmap};
use std::sync::Arc;

verus! {

/// Where a bundle keeps its metadata.
pub const METADATA_PATH: &'static str = "meta.json";

/// Where a bundle keeps its error model.
pub const ERRMODEL_PATH: &'static str = "errmodel.default.thfst";

/// Where a bundle keeps its acceptor.
pub const ACCEPTOR_PATH: &'static str = "acceptor.default.thfst";

/// An opened bundle: its speller, and its metadata if it has any.
pub struct BoxSpellerArchive<T, U> where T: Transducer, U: Transducer {
    metadata: Option<SpellerMetadata>,
    speller: Arc<Speller<T, U>>,
}

impl<T, U> BoxSpellerArchive<T, U> where T: Transducer, U: Transducer {
    /// The metadata that the archive holds.
    pub closed spec fn held_metadata(&self) -> Option<SpellerMetadata> {
        self.metadata
    }

    /// The speller that the archive holds.
    pub closed spec fn held_speller(&self) -> Speller<T, U> {
        *self.speller
    }

    /// `r` is what assembling comes to, given what was loaded. A transducer
    /// that could not be built fails the whole archive, the error model before
    /// the acceptor; otherwise the archive holds both, and the metadata as it
    /// was given.
    pub open spec fn is_assembled_from(
        r: Result<Self, SpellerArchiveError>,
        metadata: Option<SpellerMetadata>,
        errmodel: Result<T, TransducerError>,
        acceptor: Result<U, TransducerError>,
    ) -> bool {
        match (errmodel, acceptor) {
            (Err(e), _) => r == Err::<Self, SpellerArchiveError>(
                SpellerArchiveError::Transducer(TransducerRole::ErrorModel, e),
            ),
            (Ok(_), Err(e)) => r == Err::<Self, SpellerArchiveError>(
                SpellerArchiveError::Transducer(TransducerRole::Acceptor, e),
            ),
            (Ok(mutator), Ok(lexicon)) => {
                &&& r matches Ok(archive)
                &&& archive.held_metadata() == metadata
                &&& archive.held_speller().mutator == mutator
                &&& archive.held_speller().lexicon == lexicon
            },
        }
    }

    /// Puts an archive together from what was loaded. A transducer that could
    /// not be built fails the whole archive, the error model before the
    /// acceptor; metadata may be missing.
    pub fn assemble(
        metadata: Option<SpellerMetadata>,
        errmodel: Result<T, TransducerError>,
        acceptor: Result<U, TransducerError>,
    ) -> (r: Result<Self, SpellerArchiveError>)
        ensures
            Self::is_assembled_from(r, metadata, errmodel, acceptor),
    {
        let mutator = match errmodel {
            Ok(t) => t,
            Err(e) => {
                return Err(SpellerArchiveError::Transducer(TransducerRole::ErrorModel, e));
            },
        };
        let lexicon = match acceptor {
            Ok(u) => u,
            Err(e) => {
                return Err(SpellerArchiveError::Transducer(TransducerRole::Acceptor, e));
            },
        };
        let speller = Speller::new(mutator, lexicon);
        Ok(BoxSpellerArchive { speller, metadata })
    }

    /// Opens the bundle whose files `fs` holds: loads the metadata, builds
    /// both transducers, and assembles them. Only a transducer can make this
    /// fail; metadata that is missing or unreadable is left out.
    pub fn open<FS>(fs: &FS) -> (r: Result<Self, SpellerArchiveError>) where
        FS: Filesystem,
        FS::File: ToMemmap,

        ensures
            Self::is_opened_from(r, fs),
            r matches Err(e) ==> e is Transducer,
    {
        let opened = fs.open(METADATA_PATH);
        let ghost was_opened = opened;
        let metadata = SpellerMetadata::from_opened(opened);
        let ghost was_read = metadata;
        let errmodel = T::from_path(fs, ERRMODEL_PATH);
        let ghost was_errmodel = errmodel;
        let acceptor = U::from_path(fs, ACCEPTOR_PATH);
        let ghost was_acceptor = acceptor;
        let r = Self::assemble(metadata, errmodel, acceptor);
        proof {
            assert(SpellerMetadata::is_read_from(was_read, was_opened));
            assert(Self::is_assembled_from(r, was_read, was_errmodel, was_acceptor));
        }
        r
    }

    /// `r` is what opening the bundle in `fs` comes to: the archive assembled
    /// from the metadata read from the file under `METADATA_PATH`, from the
    /// error model built from `ERRMODEL_PATH`, and from the acceptor built from
    /// `ACCEPTOR_PATH`, whatever `fs` and the two transducers make of these
    /// requests.
    pub open spec fn is_opened_from<FS>(r: Result<Self, SpellerArchiveError>, fs: &FS) -> bool where
        FS: Filesystem,
        FS::File: ToMemmap,
    {
        exists|
            opened: Result<FS::File, Error>,
            metadata: Option<SpellerMetadata>,
            errmodel: Result<T, TransducerError>,
            acceptor: Result<U, TransducerError>,
        |
            {
                &&& call_ensures(FS::open, (fs, METADATA_PATH), opened)
                &&& #[trigger] SpellerMetadata::is_read_from(metadata, opened)
                &&& call_ensures(T::from_path::<FS>, (fs, ERRMODEL_PATH), errmodel)
                &&& call_ensures(U::from_path::<FS>, (fs, ACCEPTOR_PATH), acceptor)
                &&& #[trigger] Self::is_assembled_from(r, metadata, errmodel, acceptor)
            }
    }

    /// The speller, shared with the archive.
    pub fn speller(&self) -> (speller: Arc<Speller<T, U>>)
        ensures
            *speller == self.held_speller(),
    {
        share(&self.speller)
    }

    /// The metadata, if the bundle has any.
    pub fn metadata(&self) -> (metadata: Option<&SpellerMetadata>)
        ensures
            match metadata {
                Some(m) => self.held_metadata() == Some(*m),
                None => self.held_metadata() is None,
            },
    {
        self.metadata.as_ref()
    }
}

} // verus!
