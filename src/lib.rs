//! Staged-sector allocation and persistence for a sector builder.
//!
//! Pieces of user data are packed first-fit into fixed-capacity staged
//! sectors; new sectors are provisioned on demand under identifiers derived
//! from the pieces' content keys, and the builder state can be checkpointed
//! to and restored from a key-value store.

pub mod add_piece;
pub mod errors;
pub mod metadata;
pub mod persistence;
pub mod placement;
pub mod sector_id;
pub mod storage;

pub use add_piece::add_piece;
pub use errors::SectorBuilderErr;
pub use persistence::load_sector_builder_state;
pub use placement::compute_destination_sector_id;
pub use sector_id::get_sectorid_from_cid;
