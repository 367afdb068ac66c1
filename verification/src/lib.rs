//! Access layer for spell-checking bundles: capability traits for reading and
//! mapping files, the box-container backend built on them, the archive
//! assembler, and the accuracy report summary.

pub mod accuracy;
pub mod archive;
pub mod report;
pub mod speller;
pub mod transducer;
pub mod util;
