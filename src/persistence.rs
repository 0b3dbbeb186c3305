use vstd::prelude::*;

use crate::errors::SectorBuilderErr;
use crate::metadata::{ids_unique, sectors_view, SectorBuilderState, StagedSectorMetadata};
use crate::storage::{KeyValueStore, StateCodec};

verus! {

/// Whether no two of the sectors share an identifier.
pub fn sector_ids_unique(sectors: &Vec<StagedSectorMetadata>) -> (r: bool)
    ensures
        r == ids_unique(sectors_view(sectors@)),
{
    let ghost sv = sectors_view(sectors@);
    let n = sectors.len();
    let mut i: usize = 0;
    while i < n
        invariant
            sv == sectors_view(sectors@),
            n == sv.len(),
            0 <= i <= n,
            forall|a: int, b: int| 0 <= a < i && 0 <= b < n && a != b ==> sv[a].id != sv[b].id,
        decreases n - i,
    {
        let mut j: usize = 0;
        while j < n
            invariant
                sv == sectors_view(sectors@),
                n == sv.len(),
                0 <= i < n,
                0 <= j <= n,
                forall|a: int, b: int|
                    0 <= a < i && 0 <= b < n && a != b ==> sv[a].id != sv[b].id,
                forall|b: int| 0 <= b < j && b != i ==> sv[i as int].id != sv[b].id,
            decreases n - j,
        {
            if j != i && sectors[i].sector_id == sectors[j].sector_id {
                proof {
                    assert(sv[i as int].id == sv[j as int].id);
                }
                return false;
            }
            j = j + 1;
        }
        i = i + 1;
    }
    true
}

/// Whether a decoded builder state is well formed: its sector map is keyed by
/// identifier.
pub open spec fn state_well_formed(s: SectorBuilderState) -> bool {
    s.staged.wf()
}

/// Acts on what was found under a prover identity: no record is no state; a
/// record that did not decode, or decoded to a state whose sectors share an
/// identifier, is `CorruptState`; otherwise the decoded state is the result.
pub fn finish_load(decoded: Option<Result<SectorBuilderState, String>>) -> (r: Result<
    Option<SectorBuilderState>,
    SectorBuilderErr,
>)
    ensures
        decoded is None ==> r == Ok::<Option<SectorBuilderState>, SectorBuilderErr>(None),
        decoded matches Some(Err(e)) ==> r == Err::<Option<SectorBuilderState>, SectorBuilderErr>(
            SectorBuilderErr::CorruptState(e),
        ),
        decoded matches Some(Ok(s)) ==> (state_well_formed(s) ==> r == Ok::<
            Option<SectorBuilderState>,
            SectorBuilderErr,
        >(Some(s))),
        decoded matches Some(Ok(s)) ==> (!state_well_formed(s) ==> r matches Err(
            SectorBuilderErr::CorruptState(_),
        )),
{
    match decoded {
        None => Ok(None),
        Some(Err(e)) => Err(SectorBuilderErr::CorruptState(e)),
        Some(Ok(state)) => {
            if sector_ids_unique(&state.staged.sectors) {
                Ok(Some(state))
            } else {
                Err(
                    SectorBuilderErr::CorruptState(
                        String::from_str("sectors share an identifier"),
                    ),
                )
            }
        },
    }
}

/// Loads the builder state persisted under the prover identity. An absent
/// record is no error: the result is `None`. A store error is passed on as
/// `KeyValueStoreFailed`; what was found is then judged by `finish_load`.
pub fn load_sector_builder_state<K: KeyValueStore, C: StateCodec>(
    kv_store: &K,
    codec: &C,
    prover_id: [u8; 31],
) -> (r: Result<Option<SectorBuilderState>, SectorBuilderErr>)
    ensures
        r matches Ok(Some(s)) ==> state_well_formed(s),
        r is Err ==> r->Err_0 is KeyValueStoreFailed || r->Err_0 is CorruptState,
{
    let found = match kv_store.get(prover_id.as_slice()) {
        Ok(v) => v,
        Err(e) => {
            return Err(SectorBuilderErr::KeyValueStoreFailed(e));
        },
    };
    let decoded = match found {
        None => None,
        Some(bytes) => Some(codec.decode(bytes.as_slice())),
    };
    finish_load(decoded)
}

/// Persists the builder state under its prover identity, replacing any
/// earlier record.
pub fn save_sector_builder_state<K: KeyValueStore, C: StateCodec>(
    kv_store: &K,
    codec: &C,
    state: &SectorBuilderState,
) -> (r: Result<(), SectorBuilderErr>)
    ensures
        r is Err ==> r->Err_0 is KeyValueStoreFailed || r->Err_0 is StateEncodingFailed,
{
    let bytes = match codec.encode(state) {
        Ok(b) => b,
        Err(e) => {
            return Err(SectorBuilderErr::StateEncodingFailed(e));
        },
    };
    match kv_store.put(state.prover_id.as_slice(), bytes.as_slice()) {
        Ok(()) => Ok(()),
        Err(e) => Err(SectorBuilderErr::KeyValueStoreFailed(e)),
    }
}

} // verus!
