use vstd::prelude::*;
use vstd::utf8::encode_utf8;

use crate::errors::SectorBuilderErr;
use crate::metadata::{
    has_sector, ids_unique, lemma_occupancy_push, pieces_view, sectors_view, within_capacity, PieceMetadata,
    PieceView, SealStatus, SectorView, StagedSectorMetadata, StagedState,
};
use crate::placement::{compute_destination_sector_id, first_fit_id, is_first_fit};
use crate::sector_id::{get_sectorid_from_cid, sector_id_of_key};
use crate::storage::SectorManager;

verus! {

/// The sectors with piece `p` appended to sector `i`.
pub open spec fn with_piece(sectors: Seq<SectorView>, i: int, p: PieceView) -> Seq<SectorView> {
    sectors.update(i, SectorView { pieces: sectors[i].pieces.push(p), ..sectors[i] })
}

/// A freshly provisioned sector: no pieces yet, accepting writes.
pub open spec fn fresh_sector(id: u64, access: Seq<char>) -> SectorView {
    SectorView { id, access, pieces: Seq::empty(), status: SealStatus::Pending }
}

/// The position of the sector with the identifier, if there is one.
fn sector_index(sectors: &Vec<StagedSectorMetadata>, id: u64) -> (r: Option<usize>)
    ensures
        r matches Some(i) ==> i < sectors@.len() && sectors_view(sectors@)[i as int].id == id,
        r is None ==> !has_sector(sectors_view(sectors@), id),
{
    let ghost sv = sectors_view(sectors@);
    let mut i: usize = 0;
    while i < sectors.len()
        invariant
            sv == sectors_view(sectors@),
            sv.len() == sectors@.len(),
            0 <= i <= sv.len(),
            forall|j: int| 0 <= j < i ==> (#[trigger] sv[j]).id != id,
        decreases sv.len() - i,
    {
        if sectors[i].sector_id == id {
            return Some(i);
        }
        i = i + 1;
    }
    None
}

/// Registers a new, empty, pending sector under the current nonce with the
/// access the storage manager granted; passes a refusal on. An identifier
/// already in use is never overwritten: the state is then left as it was.
pub fn register_sector(
    staged_state: &mut StagedState,
    access: Result<String, String>,
) -> (r: Result<u64, SectorBuilderErr>)
    requires
        old(staged_state).wf(),
    ensures
        final(staged_state).wf(),
        final(staged_state)@.nonce == old(staged_state)@.nonce,
        has_sector(old(staged_state)@.sectors, old(staged_state)@.nonce) ==> r == Err::<
            u64,
            SectorBuilderErr,
        >(SectorBuilderErr::SectorIdCollision { sector_id: old(staged_state)@.nonce }),
        !has_sector(old(staged_state)@.sectors, old(staged_state)@.nonce) ==> match access {
            Ok(a) => r == Ok::<u64, SectorBuilderErr>(old(staged_state)@.nonce)
                && final(staged_state)@.sectors == old(staged_state)@.sectors.push(
                fresh_sector(old(staged_state)@.nonce, a@),
            ),
            Err(e) => r == Err::<u64, SectorBuilderErr>(
                SectorBuilderErr::StorageAllocationFailed(e),
            ),
        },
        r is Err ==> final(staged_state)@ == old(staged_state)@,
{
    let sector_id = staged_state.sector_id_nonce;
    if sector_index(&staged_state.sectors, sector_id).is_some() {
        return Err(SectorBuilderErr::SectorIdCollision { sector_id });
    }
    let access = match access {
        Ok(a) => a,
        Err(e) => {
            return Err(SectorBuilderErr::StorageAllocationFailed(e));
        },
    };
    let ghost access_view = access@;
    let meta = StagedSectorMetadata {
        sector_id,
        sector_access: access,
        pieces: Vec::new(),
        seal_status: SealStatus::Pending,
    };
    let ghost old_sectors = staged_state.sectors@;
    staged_state.sectors.push(meta);
    proof {
        assert(pieces_view(Seq::<PieceMetadata>::empty()) =~= Seq::<PieceView>::empty());
        assert(sectors_view(staged_state.sectors@) =~= sectors_view(old_sectors).push(
            fresh_sector(sector_id, access_view),
        ));
    }
    Ok(sector_id)
}

/// Provisions a new staged sector under the current nonce: asks the storage
/// manager for an access and registers an empty, pending sector there. The
/// manager is not asked when the identifier is already in use.
fn provision_new_staged_sector<M: SectorManager>(
    sector_manager: &M,
    staged_state: &mut StagedState,
) -> (r: Result<u64, SectorBuilderErr>)
    requires
        old(staged_state).wf(),
    ensures
        final(staged_state).wf(),
        final(staged_state)@.nonce == old(staged_state)@.nonce,
        has_sector(old(staged_state)@.sectors, old(staged_state)@.nonce) ==> r == Err::<
            u64,
            SectorBuilderErr,
        >(SectorBuilderErr::SectorIdCollision { sector_id: old(staged_state)@.nonce }),
        !has_sector(old(staged_state)@.sectors, old(staged_state)@.nonce) && r is Err
            ==> r->Err_0 is StorageAllocationFailed,
        r is Err ==> final(staged_state)@ == old(staged_state)@,
        r is Ok ==> r->Ok_0 == old(staged_state)@.nonce,
        r is Ok ==> final(staged_state)@.sectors == old(staged_state)@.sectors.push(
            fresh_sector(old(staged_state)@.nonce, final(staged_state)@.sectors.last().access),
        ),
{
    let sector_id = staged_state.sector_id_nonce;
    if sector_index(&staged_state.sectors, sector_id).is_some() {
        return Err(SectorBuilderErr::SectorIdCollision { sector_id });
    }
    let access = sector_manager.new_staging_sector_access(sector_id);
    register_sector(staged_state, access)
}

/// Acts on what the storage manager reported for writing a piece of `len`
/// bytes into sector `i`: a full write records the piece there and gives the
/// sector's identifier; a short write or a write error records nothing and,
/// where the sector was provisioned for this piece, withdraws it.
pub fn commit_write(
    staged_state: &mut StagedState,
    i: usize,
    piece_key: String,
    len: u64,
    written: Result<u64, String>,
    provisioned: bool,
) -> (r: Result<u64, SectorBuilderErr>)
    requires
        old(staged_state).wf(),
        i < old(staged_state)@.sectors.len(),
        provisioned ==> i == old(staged_state)@.sectors.len() - 1,
    ensures
        final(staged_state).wf(),
        final(staged_state)@.nonce == old(staged_state)@.nonce,
        written == Ok::<u64, String>(len) ==> r == Ok::<u64, SectorBuilderErr>(
            old(staged_state)@.sectors[i as int].id,
        ) && final(staged_state)@.sectors == with_piece(
            old(staged_state)@.sectors,
            i as int,
            piece_of(piece_key@, len),
        ),
        match written {
            Ok(n) => n != len ==> r == Err::<u64, SectorBuilderErr>(
                SectorBuilderErr::IncompleteWrite { written: n, expected: len },
            ),
            Err(e) => r == Err::<u64, SectorBuilderErr>(SectorBuilderErr::StorageWriteFailed(e)),
        },
        written != Ok::<u64, String>(len) && provisioned ==> final(staged_state)@.sectors
            == old(staged_state)@.sectors.drop_last(),
        written != Ok::<u64, String>(len) && !provisioned ==> final(staged_state)@.sectors
            == old(staged_state)@.sectors,
{
    let ghost before = staged_state@;
    let ghost piece = piece_of(piece_key@, len);
    let failure = match written {
        Ok(n) => {
            if n == len {
                None
            } else {
                Some(SectorBuilderErr::IncompleteWrite { written: n, expected: len })
            }
        },
        Err(e) => Some(SectorBuilderErr::StorageWriteFailed(e)),
    };
    match failure {
        Some(err) => {
            if provisioned {
                let ghost full = staged_state.sectors@;
                staged_state.sectors.pop();
                proof {
                    assert(sectors_view(staged_state.sectors@) =~= before.sectors.drop_last());
                    assert(ids_unique(before.sectors.drop_last()));
                }
            }
            Err(err)
        },
        None => {
            let ghost mid = staged_state.sectors@;
            let id = staged_state.sectors[i].sector_id;
            staged_state.sectors[i].pieces.push(PieceMetadata { piece_key, num_bytes: len });
            proof {
                let new_s = staged_state.sectors@[i as int];
                assert(pieces_view(new_s.pieces@) =~= pieces_view(mid[i as int].pieces@).push(
                    piece,
                ));
                assert(staged_state.sectors@ =~= mid.update(i as int, new_s));
                assert(sectors_view(staged_state.sectors@) =~= with_piece(
                    sectors_view(mid),
                    i as int,
                    piece,
                ));
            }
            Ok(id)
        },
    }
}

/// The piece record `add_piece` appends for a key and a length.
pub open spec fn piece_of(key: Seq<char>, num_bytes: u64) -> PieceView {
    PieceView { key, num_bytes }
}

/// Writes a piece into the first pending sector with room for it, or into a
/// new sector named by the identifier derived from the piece's key, and
/// records it there. The nonce takes the derived identifier as soon as it is
/// derived; the sectors change only once the storage manager has written
/// every byte of the piece.
pub fn add_piece<M: SectorManager>(
    sector_manager: &M,
    max_bytes_per_sector: u64,
    staged_state: &mut StagedState,
    piece_key: String,
    piece_bytes: &[u8],
) -> (r: Result<u64, SectorBuilderErr>)
    requires
        old(staged_state).wf(),
    ensures
        final(staged_state).wf(),
        ({
            let key = encode_utf8(piece_key@);
            let len = piece_bytes@.len() as u64;
            let before = old(staged_state)@;
            let after = final(staged_state)@;
            let derived = sector_id_of_key(key);
            let fit = first_fit_id(before.sectors, max_bytes_per_sector, len);
            &&& key.len() < 8 ==> after == before
            &&& key.len() < 8 ==> r == Err::<u64, SectorBuilderErr>(
                SectorBuilderErr::InvalidKey { key_len: key.len() as usize },
            )
            &&& key.len() >= 8 ==> after.nonce == derived
            &&& key.len() >= 8 && len > max_bytes_per_sector ==> r == Err::<u64, SectorBuilderErr>(
                SectorBuilderErr::PieceTooLarge {
                    num_bytes: len,
                    max_bytes: max_bytes_per_sector,
                },
            )
            &&& key.len() >= 8 && len <= max_bytes_per_sector && fit is None && has_sector(
                before.sectors,
                derived,
            ) ==> r == Err::<u64, SectorBuilderErr>(
                SectorBuilderErr::SectorIdCollision { sector_id: derived },
            )
            &&& r is Err ==> after.sectors == before.sectors
            &&& within_capacity(before.sectors, max_bytes_per_sector) ==> within_capacity(
                after.sectors,
                max_bytes_per_sector,
            )
            &&& key.len() >= 8 && len <= max_bytes_per_sector && !(fit is None && has_sector(
                before.sectors,
                derived,
            )) && r is Err ==> r->Err_0 is StorageAllocationFailed || r->Err_0 is StorageWriteFailed
                || r->Err_0 is IncompleteWrite
            &&& r matches Err(SectorBuilderErr::StorageAllocationFailed(_)) ==> fit is None
            &&& r matches Err(SectorBuilderErr::IncompleteWrite { written, expected }) ==> expected
                == len && written != len
            &&& r is Ok ==> key.len() >= 8 && len <= max_bytes_per_sector
            &&& r is Ok && fit is Some ==> r->Ok_0 == fit->Some_0 && exists|i: int|
                is_first_fit(before.sectors, max_bytes_per_sector, len, i)
                    && #[trigger] before.sectors[i].id == r->Ok_0
                    && after.sectors == with_piece(before.sectors, i, piece_of(piece_key@, len))
            &&& r is Ok && fit is None ==> r->Ok_0 == derived && !has_sector(
                before.sectors,
                derived,
            ) && after.sectors == before.sectors.push(
                SectorView {
                    pieces: seq![piece_of(piece_key@, len)],
                    ..fresh_sector(derived, after.sectors.last().access)
                },
            )
        }),
{
    let len = piece_bytes.len() as u64;
    let ghost before = staged_state@;
    let ghost piece = piece_of(piece_key@, len);
    let sector_id = match get_sectorid_from_cid(piece_key.as_str()) {
        Ok(id) => id,
        Err(e) => {
            return Err(e);
        },
    };
    staged_state.sector_id_nonce = sector_id;
    let dest = match compute_destination_sector_id(
        staged_state.sectors.as_slice(),
        max_bytes_per_sector,
        len,
    ) {
        Ok(d) => d,
        Err(e) => {
            return Err(e);
        },
    };
    match dest {
        Some(dest_id) => {
            let i = match sector_index(&staged_state.sectors, dest_id) {
                Some(i) => i,
                None => {
                    return Err(SectorBuilderErr::SectorNotFound { sector_id: dest_id });
                },
            };
            let written = sector_manager.write_and_preprocess(
                staged_state.sectors[i].sector_access.as_str(),
                piece_bytes,
            );
            proof {
                lemma_occupancy_push(staged_state@.sectors[i as int].pieces, piece);
            }
            commit_write(staged_state, i, piece_key, len, written, false)
        },
        None => {
            let new_id = match provision_new_staged_sector(sector_manager, staged_state) {
                Ok(id) => id,
                Err(e) => {
                    return Err(e);
                },
            };
            let last = staged_state.sectors.len() - 1;
            let ghost provisioned = staged_state@.sectors;
            proof {
                assert(provisioned.drop_last() =~= before.sectors);
            }
            let written = sector_manager.write_and_preprocess(
                staged_state.sectors[last].sector_access.as_str(),
                piece_bytes,
            );
            let r = commit_write(staged_state, last, piece_key, len, written, true);
            proof {
                if r is Ok {
                    assert(staged_state@.sectors =~= before.sectors.push(
                        SectorView {
                            pieces: seq![piece],
                            ..fresh_sector(sector_id, staged_state@.sectors.last().access)
                        },
                    ));
                    lemma_occupancy_push(Seq::empty(), piece);
                    assert(seq![piece] =~= Seq::<PieceView>::empty().push(piece));
                }
            }
            r
        },
    }
}

} // verus!
