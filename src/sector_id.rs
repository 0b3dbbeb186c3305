use vstd::prelude::*;
use vstd::string::*;

use crate::errors::SectorBuilderErr;

verus! {

/// Number of trailing key bytes an identifier is read from.
pub const ID_BYTES: usize = 8;

/// The bytes read as an unsigned big-endian integer.
pub open spec fn be_value(b: Seq<u8>) -> nat
    decreases b.len(),
{
    if b.len() == 0 {
        0
    } else {
        be_value(b.drop_last()) * 256 + b.last() as nat
    }
}

/// 256 to the power `n`: one more than the largest value of `n` bytes.
pub open spec fn byte_range(n: nat) -> nat
    decreases n,
{
    if n == 0 {
        1
    } else {
        256 * byte_range((n - 1) as nat)
    }
}

/// The last eight bytes of a key.
pub open spec fn id_bytes(key: Seq<u8>) -> Seq<u8> {
    key.subrange(key.len() - 8, key.len() as int)
}

/// The identifier a content key of at least eight bytes names.
pub open spec fn sector_id_of_key(key: Seq<u8>) -> u64 {
    be_value(id_bytes(key)) as u64
}

proof fn lemma_be_value_bound(b: Seq<u8>)
    ensures
        be_value(b) < byte_range(b.len()),
    decreases b.len(),
{
    if b.len() > 0 {
        let prev = be_value(b.drop_last());
        let r = byte_range(b.drop_last().len());
        lemma_be_value_bound(b.drop_last());
        assert(prev * 256 + b.last() < 256 * r) by (nonlinear_arith)
            requires
                prev < r,
                b.last() < 256,
        ;
    }
}

proof fn lemma_byte_range_mono(a: nat, b: nat)
    requires
        a <= b,
    ensures
        byte_range(a) <= byte_range(b),
    decreases b,
{
    if a < b {
        lemma_byte_range_mono(a, (b - 1) as nat);
    }
}

/// Keys that end in the same eight bytes name the same sector; in particular a
/// key names the same sector every time it is read.
pub proof fn lemma_same_trailing_bytes_same_id(k1: Seq<u8>, k2: Seq<u8>)
    requires
        k1.len() >= 8,
        k2.len() >= 8,
        id_bytes(k1) == id_bytes(k2),
    ensures
        sector_id_of_key(k1) == sector_id_of_key(k2),
{
}

/// A key of exactly eight bytes is read whole.
pub proof fn lemma_eight_byte_key_read_whole(k: Seq<u8>)
    requires
        k.len() == 8,
    ensures
        sector_id_of_key(k) as nat == be_value(k),
{
    assert(id_bytes(k) =~= k);
    lemma_be_value_bound(k);
    reveal_with_fuel(byte_range, 9);
    assert(byte_range(8) == 0x1_0000_0000_0000_0000);
}

/// Derives a sector identifier from a content key: its last eight UTF-8 bytes,
/// read as an unsigned big-endian integer.
pub fn get_sectorid_from_cid(cid: &str) -> (r: Result<u64, SectorBuilderErr>)
    ensures
        cid.spec_bytes().len() < 8 <==> r is Err,
        r is Err ==> r->Err_0 == (SectorBuilderErr::InvalidKey {
            key_len: cid.spec_bytes().len() as usize,
        }),
        r is Ok ==> r->Ok_0 == sector_id_of_key(cid.spec_bytes()),
        r is Ok ==> r->Ok_0 as nat == be_value(id_bytes(cid.spec_bytes())),
{
    let cid_b = cid.as_bytes_vec();
    let l = cid_b.len();
    if l < ID_BYTES {
        return Err(SectorBuilderErr::InvalidKey { key_len: l });
    }
    let start = l - ID_BYTES;
    let mut sector_id: u64 = 0;
    let mut i: usize = start;
    proof {
        assert(cid_b@.subrange(start as int, start as int) =~= Seq::<u8>::empty());
    }
    while i < l
        invariant
            cid_b@ == cid.spec_bytes(),
            l == cid_b@.len(),
            start == l - 8,
            start <= i <= l,
            sector_id as nat == be_value(cid_b@.subrange(start as int, i as int)),
        decreases l - i,
    {
        let ghost done = cid_b@.subrange(start as int, i as int);
        let ghost next = cid_b@.subrange(start as int, i + 1);
        proof {
            assert(next.drop_last() =~= done);
            lemma_be_value_bound(done);
            lemma_byte_range_mono(done.len(), 7);
            reveal_with_fuel(byte_range, 8);
            assert(byte_range(7) == 0x1_0000_0000_0000_00);
        }
        sector_id = sector_id * 256 + cid_b[i] as u64;
        i = i + 1;
    }
    proof {
        assert(cid_b@.subrange(start as int, l as int) =~= id_bytes(cid.spec_bytes()));
    }
    Ok(sector_id)
}

} // verus!
