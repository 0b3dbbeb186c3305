use vstd::prelude::*;

verus! {

/// Abstract value of a piece: its key and its unpadded length.
#[verifier::ext_equal]
pub struct PieceView {
    pub key: Seq<char>,
    pub num_bytes: u64,
}

/// Abstract value of a staged sector.
#[verifier::ext_equal]
pub struct SectorView {
    pub id: u64,
    pub access: Seq<char>,
    pub pieces: Seq<PieceView>,
    pub status: SealStatus,
}

/// Abstract value of the staged state: the nonce and the sectors in order.
#[verifier::ext_equal]
pub struct StagedView {
    pub nonce: u64,
    pub sectors: Seq<SectorView>,
}

/// A piece written into a staged sector.
#[derive(Debug, Clone)]
pub struct PieceMetadata {
    pub piece_key: String,
    pub num_bytes: u64,
}

impl View for PieceMetadata {
    type V = PieceView;

    open spec fn view(&self) -> PieceView {
        PieceView { key: self.piece_key@, num_bytes: self.num_bytes }
    }
}

/// Where a sector stands in its lifecycle; only `Pending` sectors take pieces.
#[derive(Debug, Clone, PartialEq, Eq)]
pub enum SealStatus {
    Pending,
    Sealing,
    Sealed,
    Failed(String),
}

impl SealStatus {
    pub fn is_pending(&self) -> (r: bool)
        ensures
            r == (*self is Pending),
    {
        match self {
            SealStatus::Pending => true,
            _ => false,
        }
    }
}

impl Default for SealStatus {
    fn default() -> (r: SealStatus)
        ensures
            r is Pending,
    {
        SealStatus::Pending
    }
}

/// A sector that receives pieces until it is sealed.
#[derive(Debug, Clone)]
pub struct StagedSectorMetadata {
    pub sector_id: u64,
    pub sector_access: String,
    pub pieces: Vec<PieceMetadata>,
    pub seal_status: SealStatus,
}

pub open spec fn pieces_view(pieces: Seq<PieceMetadata>) -> Seq<PieceView> {
    pieces.map_values(|p: PieceMetadata| p@)
}

impl View for StagedSectorMetadata {
    type V = SectorView;

    open spec fn view(&self) -> SectorView {
        SectorView {
            id: self.sector_id,
            access: self.sector_access@,
            pieces: pieces_view(self.pieces@),
            status: self.seal_status,
        }
    }
}

impl Default for StagedSectorMetadata {
    fn default() -> (r: StagedSectorMetadata)
        ensures
            r@ == (SectorView {
                id: 0,
                access: Seq::empty(),
                pieces: Seq::empty(),
                status: SealStatus::Pending,
            }),
    {
        let r = StagedSectorMetadata {
            sector_id: 0,
            sector_access: String::new(),
            pieces: Vec::new(),
            seal_status: SealStatus::Pending,
        };
        assert(r@ =~= (SectorView {
            id: 0,
            access: Seq::empty(),
            pieces: Seq::empty(),
            status: SealStatus::Pending,
        }));
        r
    }
}

/// Sum of the unpadded lengths of the pieces.
pub open spec fn occupancy(pieces: Seq<PieceView>) -> nat
    decreases pieces.len(),
{
    if pieces.len() == 0 {
        0
    } else {
        occupancy(pieces.drop_last()) + pieces.last().num_bytes as nat
    }
}

/// Appending a piece adds its length to the occupancy.
pub proof fn lemma_occupancy_push(pieces: Seq<PieceView>, p: PieceView)
    ensures
        occupancy(pieces.push(p)) == occupancy(pieces) + p.num_bytes,
{
    assert(pieces.push(p).drop_last() =~= pieces);
}

/// Every sector holds at most `max` bytes.
pub open spec fn within_capacity(sectors: Seq<SectorView>, max: u64) -> bool {
    forall|i: int| 0 <= i < sectors.len() ==> occupancy(#[trigger] sectors[i].pieces) <= max
}

/// The staged sectors of one builder, with the nonce that names the next new sector.
#[derive(Debug, Clone)]
pub struct StagedState {
    pub sector_id_nonce: u64,
    pub sectors: Vec<StagedSectorMetadata>,
}

pub open spec fn sectors_view(sectors: Seq<StagedSectorMetadata>) -> Seq<SectorView> {
    sectors.map_values(|s: StagedSectorMetadata| s@)
}

/// No two sectors share an identifier.
pub open spec fn ids_unique(sectors: Seq<SectorView>) -> bool {
    forall|i: int, j: int|
        0 <= i < sectors.len() && 0 <= j < sectors.len() && i != j ==> sectors[i].id
            != sectors[j].id
}

/// Whether some sector carries the identifier.
pub open spec fn has_sector(sectors: Seq<SectorView>, id: u64) -> bool {
    exists|i: int| 0 <= i < sectors.len() && sectors[i].id == id
}

impl View for StagedState {
    type V = StagedView;

    open spec fn view(&self) -> StagedView {
        StagedView { nonce: self.sector_id_nonce, sectors: sectors_view(self.sectors@) }
    }
}

impl StagedState {
    /// The sector map is keyed by identifier: identifiers are unique.
    pub open spec fn wf(&self) -> bool {
        ids_unique(self@.sectors)
    }

    /// An empty state with nonce zero.
    pub fn new() -> (r: StagedState)
        ensures
            r@.nonce == 0,
            r@.sectors.len() == 0,
            r.wf(),
    {
        StagedState { sector_id_nonce: 0, sectors: Vec::new() }
    }
}

/// The persisted aggregate of one prover's builder.
#[derive(Debug, Clone)]
pub struct SectorBuilderState {
    pub prover_id: [u8; 31],
    pub staged: StagedState,
}

} // verus!
