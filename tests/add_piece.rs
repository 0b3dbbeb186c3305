use std::cell::RefCell;

use sector_builder::add_piece::add_piece;
use sector_builder::errors::SectorBuilderErr;
use sector_builder::get_sectorid_from_cid;
use sector_builder::metadata::{PieceMetadata, SealStatus, StagedSectorMetadata, StagedState};
use sector_builder::storage::SectorManager;

/// An in-memory storage manager that records what it is asked to do.
struct MemManager {
    allocations: RefCell<Vec<u64>>,
    writes: RefCell<Vec<(String, usize)>>,
    fail_allocation: bool,
    fail_write: bool,
    short_by: u64,
}

impl MemManager {
    fn new() -> MemManager {
        MemManager {
            allocations: RefCell::new(Vec::new()),
            writes: RefCell::new(Vec::new()),
            fail_allocation: false,
            fail_write: false,
            short_by: 0,
        }
    }
}

impl SectorManager for MemManager {
    fn new_staging_sector_access(&self, sector_id: u64) -> Result<String, String> {
        if self.fail_allocation {
            return Err(String::from("medium exhausted"));
        }
        self.allocations.borrow_mut().push(sector_id);
        Ok(format!("/staging/{}", sector_id))
    }

    fn write_and_preprocess(&self, access: &str, data: &[u8]) -> Result<u64, String> {
        if self.fail_write {
            return Err(String::from("disk error"));
        }
        self.writes.borrow_mut().push((String::from(access), data.len()));
        Ok(data.len() as u64 - self.short_by)
    }
}

fn pending(id: u64, sizes: &[u64]) -> StagedSectorMetadata {
    let mut s: StagedSectorMetadata = Default::default();
    s.sector_id = id;
    s.sector_access = format!("/staging/{}", id);
    for n in sizes {
        s.pieces.push(PieceMetadata { piece_key: String::from("old"), num_bytes: *n });
    }
    s
}

fn occupancy(s: &StagedSectorMetadata) -> u64 {
    s.pieces.iter().map(|p| p.num_bytes).sum()
}

const KEY: &str = "piece-cid-00000042";

#[test]
fn scenario_piece_fills_existing_sector() {
    let mgr = MemManager::new();
    let mut state = StagedState { sector_id_nonce: 0, sectors: vec![pending(1, &[5, 10])] };
    let r = add_piece(&mgr, 100, &mut state, String::from(KEY), &[7u8; 85]);
    assert_eq!(r, Ok(1));
    assert_eq!(state.sectors.len(), 1);
    assert_eq!(occupancy(&state.sectors[0]), 100);
    assert_eq!(state.sectors[0].pieces[2].piece_key, KEY);
    assert_eq!(state.sectors[0].pieces[2].num_bytes, 85);
    assert!(mgr.allocations.borrow().is_empty());
    assert_eq!(*mgr.writes.borrow(), vec![(String::from("/staging/1"), 85)]);
    assert_eq!(state.sector_id_nonce, get_sectorid_from_cid(KEY).unwrap());
}

#[test]
fn scenario_piece_fits_nowhere_new_sector_provisioned() {
    let mgr = MemManager::new();
    let mut state =
        StagedState { sector_id_nonce: 0, sectors: vec![pending(1, &[15]), pending(2, &[95])] };
    let derived = get_sectorid_from_cid(KEY).unwrap();
    let r = add_piece(&mgr, 100, &mut state, String::from(KEY), &[1u8; 90]);
    assert_eq!(r, Ok(derived));
    assert_eq!(state.sectors.len(), 3);
    assert_eq!(occupancy(&state.sectors[0]), 15);
    assert_eq!(occupancy(&state.sectors[1]), 95);
    let c = &state.sectors[2];
    assert_eq!(c.sector_id, derived);
    assert_eq!(c.seal_status, SealStatus::Pending);
    assert_eq!(c.sector_access, format!("/staging/{}", derived));
    assert_eq!(c.pieces.len(), 1);
    assert_eq!(c.pieces[0].num_bytes, 90);
    assert_eq!(*mgr.allocations.borrow(), vec![derived]);
    assert_eq!(mgr.writes.borrow().len(), 1);
}

#[test]
fn scenario_piece_too_large_changes_no_sector() {
    let mgr = MemManager::new();
    let mut state = StagedState { sector_id_nonce: 0, sectors: vec![pending(1, &[15])] };
    let r = add_piece(&mgr, 100, &mut state, String::from(KEY), &[0u8; 101]);
    assert_eq!(r, Err(SectorBuilderErr::PieceTooLarge { num_bytes: 101, max_bytes: 100 }));
    assert_eq!(state.sectors.len(), 1);
    assert_eq!(state.sectors[0].pieces.len(), 1);
    assert!(mgr.allocations.borrow().is_empty());
    assert!(mgr.writes.borrow().is_empty());
}

#[test]
fn add_piece_into_empty_state_provisions_first_sector() {
    let mgr = MemManager::new();
    let mut state = StagedState::new();
    let r = add_piece(&mgr, 100, &mut state, String::from("ABCDEFGH"), &[3u8; 100]);
    assert_eq!(r, Ok(0x4142434445464748));
    assert_eq!(state.sectors.len(), 1);
    assert_eq!(occupancy(&state.sectors[0]), 100);
    assert_eq!(state.sector_id_nonce, 0x4142434445464748);
}

#[test]
fn add_piece_short_key_is_invalid_and_changes_nothing() {
    let mgr = MemManager::new();
    let mut state = StagedState { sector_id_nonce: 5, sectors: vec![pending(1, &[])] };
    let r = add_piece(&mgr, 100, &mut state, String::from("short"), &[0u8; 3]);
    assert_eq!(r, Err(SectorBuilderErr::InvalidKey { key_len: 5 }));
    assert_eq!(state.sector_id_nonce, 5);
    assert!(state.sectors[0].pieces.is_empty());
}

#[test]
fn add_piece_sealed_sectors_take_no_pieces() {
    let mgr = MemManager::new();
    let mut sealed = pending(1, &[]);
    sealed.seal_status = SealStatus::Sealed;
    let mut state = StagedState { sector_id_nonce: 0, sectors: vec![sealed] };
    let r = add_piece(&mgr, 100, &mut state, String::from("ABCDEFGH"), &[3u8; 10]);
    assert_eq!(r, Ok(0x4142434445464748));
    assert!(state.sectors[0].pieces.is_empty());
    assert_eq!(state.sectors[1].pieces.len(), 1);
}

#[test]
fn add_piece_identifier_collision_fails_loudly() {
    let mgr = MemManager::new();
    let mut full = pending(0x4142434445464748, &[100]);
    full.sector_access = String::from("/staging/full");
    let mut state = StagedState { sector_id_nonce: 0, sectors: vec![full] };
    let r = add_piece(&mgr, 100, &mut state, String::from("xxABCDEFGH"), &[3u8; 10]);
    assert_eq!(r, Err(SectorBuilderErr::SectorIdCollision { sector_id: 0x4142434445464748 }));
    assert_eq!(state.sectors.len(), 1);
    assert_eq!(state.sectors[0].pieces.len(), 1);
    assert!(mgr.allocations.borrow().is_empty());
}

#[test]
fn add_piece_incomplete_write_records_nothing() {
    let mut mgr = MemManager::new();
    mgr.short_by = 1;
    let mut state = StagedState { sector_id_nonce: 0, sectors: vec![pending(1, &[95])] };
    let r = add_piece(&mgr, 100, &mut state, String::from("ABCDEFGH"), &[3u8; 10]);
    assert_eq!(r, Err(SectorBuilderErr::IncompleteWrite { written: 9, expected: 10 }));
    assert_eq!(state.sectors.len(), 1);
    assert_eq!(state.sector_id_nonce, 0x4142434445464748);

    let r = add_piece(&mgr, 100, &mut state, String::from("ABCDEFGH"), &[3u8; 5]);
    assert_eq!(r, Err(SectorBuilderErr::IncompleteWrite { written: 4, expected: 5 }));
    assert_eq!(state.sectors[0].pieces.len(), 1);
}

#[test]
fn add_piece_storage_failures_are_reported() {
    let mut mgr = MemManager::new();
    mgr.fail_allocation = true;
    let mut state = StagedState::new();
    let r = add_piece(&mgr, 100, &mut state, String::from("ABCDEFGH"), &[3u8; 10]);
    assert_eq!(r, Err(SectorBuilderErr::StorageAllocationFailed(String::from("medium exhausted"))));
    assert!(state.sectors.is_empty());

    let mut mgr = MemManager::new();
    mgr.fail_write = true;
    let r = add_piece(&mgr, 100, &mut state, String::from("ABCDEFGH"), &[3u8; 10]);
    assert_eq!(r, Err(SectorBuilderErr::StorageWriteFailed(String::from("disk error"))));
    assert!(state.sectors.is_empty());
    assert_eq!(*mgr.allocations.borrow(), vec![0x4142434445464748]);
}

#[test]
fn add_piece_never_exceeds_capacity() {
    let mgr = MemManager::new();
    let mut state = StagedState::new();
    let sizes = [40usize, 70, 30, 60, 30, 100, 1];
    for (k, n) in sizes.iter().enumerate() {
        let key = format!("piece-{:08}", k);
        let data = vec![0u8; *n];
        assert!(add_piece(&mgr, 100, &mut state, key, &data).is_ok());
    }
    for s in &state.sectors {
        assert!(occupancy(s) <= 100);
    }
    let total: u64 = state.sectors.iter().map(occupancy).sum();
    assert_eq!(total, 331);
    assert_eq!(occupancy(&state.sectors[0]), 100);
}
