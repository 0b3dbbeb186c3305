use vstd::prelude::*;

use crate::errors::SectorBuilderErr;
use crate::metadata::{occupancy, sectors_view, PieceView, SectorView, StagedSectorMetadata};

verus! {

/// The sector takes new pieces and has room for `len` more bytes under capacity `max`.
pub open spec fn accepts(s: SectorView, max: u64, len: u64) -> bool {
    &&& s.status is Pending
    &&& occupancy(s.pieces) + len <= max
}

/// Sector `i` is the first, in order, that accepts the piece.
pub open spec fn is_first_fit(sectors: Seq<SectorView>, max: u64, len: u64, i: int) -> bool {
    &&& 0 <= i < sectors.len()
    &&& accepts(sectors[i], max, len)
    &&& forall|j: int| 0 <= j < i ==> !accepts(#[trigger] sectors[j], max, len)
}

/// No sector accepts the piece.
pub open spec fn no_fit(sectors: Seq<SectorView>, max: u64, len: u64) -> bool {
    forall|i: int| 0 <= i < sectors.len() ==> !accepts(#[trigger] sectors[i], max, len)
}

/// The identifier first-fit placement picks, if any sector accepts the piece.
pub open spec fn first_fit_id(sectors: Seq<SectorView>, max: u64, len: u64) -> Option<u64> {
    if exists|i: int| is_first_fit(sectors, max, len, i) {
        Some(sectors[choose|i: int| is_first_fit(sectors, max, len, i)].id)
    } else {
        None
    }
}

proof fn lemma_occupancy_prefix(pieces: Seq<PieceView>, k: int)
    requires
        0 <= k <= pieces.len(),
    ensures
        occupancy(pieces.subrange(0, k)) <= occupancy(pieces),
    decreases pieces.len(),
{
    if k < pieces.len() {
        assert(pieces.drop_last() =~= pieces.drop_last().subrange(0, pieces.len() - 1));
        assert(pieces.subrange(0, k) =~= pieces.drop_last().subrange(0, k));
        lemma_occupancy_prefix(pieces.drop_last(), k);
    } else {
        assert(pieces.subrange(0, k) =~= pieces);
    }
}

proof fn lemma_first_fit_unique(sectors: Seq<SectorView>, max: u64, len: u64, i: int, j: int)
    requires
        is_first_fit(sectors, max, len, i),
        is_first_fit(sectors, max, len, j),
    ensures
        i == j,
{
}

/// Whether the sector accepts a piece of `len` bytes under capacity `max`.
fn sector_accepts(s: &StagedSectorMetadata, max: u64, len: u64) -> (r: bool)
    requires
        len <= max,
    ensures
        r == accepts(s@, max, len),
{
    if !s.seal_status.is_pending() {
        return false;
    }
    let ghost pv = s@.pieces;
    let room = max - len;
    let mut acc: u64 = 0;
    let mut i: usize = 0;
    proof {
        assert(pv.subrange(0, 0) =~= Seq::<PieceView>::empty());
    }
    while i < s.pieces.len()
        invariant
            pv == s@.pieces,
            pv.len() == s.pieces@.len(),
            room == max - len,
            0 <= i <= pv.len(),
            acc as nat == occupancy(pv.subrange(0, i as int)),
            acc <= room,
        decreases pv.len() - i,
    {
        let n = s.pieces[i].num_bytes;
        proof {
            assert(pv.subrange(0, i + 1).drop_last() =~= pv.subrange(0, i as int));
            assert(pv[i as int].num_bytes == n);
        }
        if n > room - acc {
            proof {
                lemma_occupancy_prefix(pv, i + 1);
            }
            return false;
        }
        acc = acc + n;
        i = i + 1;
    }
    proof {
        assert(pv.subrange(0, i as int) =~= pv);
    }
    true
}

/// First-fit placement over the sectors in their given order: the index of the
/// first one that accepts the piece.
fn find_first_fit(sectors: &[StagedSectorMetadata], max: u64, len: u64) -> (r: Option<usize>)
    requires
        len <= max,
    ensures
        r matches Some(i) ==> is_first_fit(sectors_view(sectors@), max, len, i as int),
        r is None ==> no_fit(sectors_view(sectors@), max, len),
{
    let ghost sv = sectors_view(sectors@);
    let mut i: usize = 0;
    while i < sectors.len()
        invariant
            sv == sectors_view(sectors@),
            sv.len() == sectors@.len(),
            len <= max,
            0 <= i <= sv.len(),
            forall|j: int| 0 <= j < i ==> !accepts(#[trigger] sv[j], max, len),
        decreases sv.len() - i,
    {
        if sector_accepts(&sectors[i], max, len) {
            return Some(i);
        }
        i = i + 1;
    }
    None
}

/// Placement policy: among the sectors that take pieces, the first whose
/// remaining capacity holds the piece; `None` when none does. A piece larger
/// than a whole sector fails before any sector is looked at.
pub fn compute_destination_sector_id(
    candidate_sectors: &[StagedSectorMetadata],
    max_bytes_per_sector: u64,
    num_bytes_in_piece: u64,
) -> (r: Result<Option<u64>, SectorBuilderErr>)
    ensures
        num_bytes_in_piece > max_bytes_per_sector <==> r is Err,
        r is Err ==> r->Err_0 == (SectorBuilderErr::PieceTooLarge {
            num_bytes: num_bytes_in_piece,
            max_bytes: max_bytes_per_sector,
        }),
        r is Ok ==> r->Ok_0 == first_fit_id(
            sectors_view(candidate_sectors@),
            max_bytes_per_sector,
            num_bytes_in_piece,
        ),
        r matches Ok(Some(id)) ==> exists|i: int|
            is_first_fit(
                sectors_view(candidate_sectors@),
                max_bytes_per_sector,
                num_bytes_in_piece,
                i,
            ) && #[trigger] sectors_view(candidate_sectors@)[i].id == id,
        r matches Ok(None) ==> no_fit(
            sectors_view(candidate_sectors@),
            max_bytes_per_sector,
            num_bytes_in_piece,
        ),
{
    if num_bytes_in_piece > max_bytes_per_sector {
        return Err(
            SectorBuilderErr::PieceTooLarge {
                num_bytes: num_bytes_in_piece,
                max_bytes: max_bytes_per_sector,
            },
        );
    }
    let ghost sv = sectors_view(candidate_sectors@);
    match find_first_fit(candidate_sectors, max_bytes_per_sector, num_bytes_in_piece) {
        Some(i) => {
            proof {
                let c = choose|k: int|
                    is_first_fit(sv, max_bytes_per_sector, num_bytes_in_piece, k);
                lemma_first_fit_unique(sv, max_bytes_per_sector, num_bytes_in_piece, i as int, c);
            }
            Ok(Some(candidate_sectors[i].sector_id))
        },
        None => Ok(None),
    }
}

} // verus!
