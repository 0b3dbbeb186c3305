use vstd::prelude::*;

verus! {

/// Every way in which a sector-builder operation can fail.
#[derive(Debug, Clone, PartialEq, Eq)]
pub enum SectorBuilderErr {
    /// The content key is shorter than the eight bytes an identifier is read from.
    InvalidKey { key_len: usize },
    /// The piece is larger than a whole sector; no sector could ever hold it.
    PieceTooLarge { num_bytes: u64, max_bytes: u64 },
    /// A new sector was needed, but its derived identifier is already in use.
    SectorIdCollision { sector_id: u64 },
    /// The storage manager could not provide an access for a new sector.
    StorageAllocationFailed(String),
    /// The storage manager reported an error while writing the piece.
    StorageWriteFailed(String),
    /// The storage manager wrote a different number of bytes than the piece holds.
    IncompleteWrite { written: u64, expected: u64 },
    /// The destination sector is missing from the state map.
    SectorNotFound { sector_id: u64 },
    /// The key-value store reported an error.
    KeyValueStoreFailed(String),
    /// A persisted builder state could not be decoded, or is not well formed.
    CorruptState(String),
    /// A builder state could not be encoded for persisting.
    StateEncodingFailed(String),
}

} // verus!
