use vstd::prelude::*;

verus! {

/// What can go wrong while a repository is synchronised.
#[derive(Debug, PartialEq)]
pub enum SyncError {
    /// The configuration is missing or unreadable, or a path cannot be resolved.
    ConfigInvalid,
    /// The storage engine is too old to support upsert.
    UnsupportedBackend,
    /// The store reported an I/O or constraint failure while a unit ran.
    StorageIo(rusqlite::Error),
    /// The exporter process could not be started.
    ExporterSpawn,
    /// The exporter wrote a line that the record grammar does not admit.
    ExporterMalformed,
    /// The exporter process could not be reaped.
    ExporterExit,
    /// A content hash is not forty lowercase hexadecimal characters.
    BadHash,
    /// A reference points at a hash that the store does not hold for its repository.
    UnknownCommit,
    /// The database actor has terminated.
    ActorGone,
}

} // verus!
