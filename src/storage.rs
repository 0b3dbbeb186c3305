use vstd::prelude::*;

use crate::metadata::SectorBuilderState;

verus! {

/// The storage layer behind staged sectors, implemented by the embedding
/// application.
pub trait SectorManager {
    /// A new storage access for the staged sector `sector_id`, or the reason
    /// none could be made.
    fn new_staging_sector_access(&self, sector_id: u64) -> Result<String, String>;

    /// Writes the bytes, preprocessed for sealing, at the access and returns
    /// how many unpadded bytes were written.
    fn write_and_preprocess(&self, access: &str, data: &[u8]) -> Result<u64, String>;
}

/// The durable key-value store that builder states are persisted in,
/// implemented by the embedding application.
pub trait KeyValueStore {
    /// The value stored under the key, if any.
    fn get(&self, key: &[u8]) -> Result<Option<Vec<u8>>, String>;

    /// Stores the value under the key, replacing what was there.
    fn put(&self, key: &[u8], value: &[u8]) -> Result<(), String>;
}

/// The binary, self-describing encoding that builder states are persisted
/// in, implemented by the embedding application.
pub trait StateCodec {
    /// The state the bytes encode, or why they encode none.
    fn decode(&self, bytes: &[u8]) -> Result<SectorBuilderState, String>;

    /// The bytes that encode the state.
    fn encode(&self, state: &SectorBuilderState) -> Result<Vec<u8>, String>;
}

} // verus!
