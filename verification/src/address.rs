//! Addresses: the program's own id, comparison of keys, and the program
//! derived address of the escrow authority.
use vstd::prelude::*;
use anchor_lang::solana_program::pubkey::Pubkey;
use crate::state::Key;

verus! {

/// The bytes of the program id `AsEUn846nbfmDkvzfEDzgZoMiJ4WBDzmRSBYtqQqYuvZ`.
pub open spec fn program_id_bytes() -> Seq<u8> {
    seq![
        146u8, 151, 118, 165, 181, 174, 99, 174, 21, 44, 179, 225, 93, 85, 137, 98,
        254, 0, 102, 198, 91, 219, 100, 152, 161, 186, 227, 160, 248, 25, 209, 42,
    ]
}

/// The seed of the escrow authority: the bytes of `escrow`.
pub open spec fn escrow_seed() -> Seq<u8> {
    seq![101u8, 115, 99, 114, 111, 119]
}

/// The id of the escrow program.
pub fn program_id() -> (id: Key)
    ensures
        id@ == program_id_bytes(),
{
    let id: Key = [
        146, 151, 118, 165, 181, 174, 99, 174, 21, 44, 179, 225, 93, 85, 137, 98,
        254, 0, 102, 198, 91, 219, 100, 152, 161, 186, 227, 160, 248, 25, 209, 42,
    ];
    assert(id@ =~= program_id_bytes());
    id
}

/// Whether two keys are the same key.
pub fn keys_equal(a: &Key, b: &Key) -> (r: bool)
    ensures
        r <==> *a == *b,
{
    let mut i: usize = 0;
    while i < 32
        invariant
            0 <= i <= 32,
            forall|j: int| 0 <= j < i ==> a@[j] == b@[j],
        decreases 32 - i,
    {
        if a[i] != b[i] {
            assert(a@[i as int] != b@[i as int]);
            return false;
        }
        i = i + 1;
    }
    assert(*a =~= *b);
    true
}

/// The program derived address of `seed` under `program_id`, with its bump
/// seed, as `Pubkey::try_find_program_address` computes it; `None` when no
/// bump seed gives an address off the curve.
pub uninterp spec fn program_address(seed: Seq<u8>, program_id: Seq<u8>) -> Option<(Seq<u8>, u8)>;

/// Whether `r` is the derived address of `seed` under `program_id`, taken by
/// the bytes of the key.
pub open spec fn is_program_address(r: Option<(Key, u8)>, seed: Seq<u8>, program_id: Seq<u8>) -> bool {
    match r {
        Some((k, bump)) => program_address(seed, program_id) == Some((k@, bump)),
        None => program_address(seed, program_id) is None,
    }
}

/// Calls `Pubkey::try_find_program_address` with the single seed `seed`.
/// The contract claims only that the result is a function of the seed and
/// the program id (`program_address`); the hashing and the curve test are
/// not stated.
#[verifier::external_body]
fn try_find_program_address(seed: &[u8], program_id: &Key) -> (r: Option<(Key, u8)>)
    ensures
        r matches Some((k, bump)) ==> program_address(seed@, program_id@) == Some((k@, bump)),
        r is None ==> program_address(seed@, program_id@) is None,
{
    match Pubkey::try_find_program_address(&[seed], &Pubkey::new_from_array(*program_id)) {
        Some((key, bump)) => Some((key.to_bytes(), bump)),
        None => None,
    }
}

/// The escrow authority: the address derived from the seed `escrow` under the
/// program id, with its bump seed.  It owns the escrow token accounts.
pub fn escrow_authority() -> (r: Option<(Key, u8)>)
    ensures
        is_program_address(r, escrow_seed(), program_id_bytes()),
{
    let seed: [u8; 6] = [101, 115, 99, 114, 111, 119];
    assert(seed@ =~= escrow_seed());
    let id = program_id();
    try_find_program_address(&seed, &id)
}

} // verus!
