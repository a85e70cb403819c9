use crate::key::Key;
use solana_program::pubkey::Pubkey;
use vstd::prelude::*;

verus! {

/// The program-derived address of `seed` under `program`, if it exists.
pub uninterp spec fn program_address(seed: Seq<u8>, program: Seq<u8>) -> Option<Seq<u8>>;

/// Relies on solana_program's `Pubkey::create_program_address`, called with the
/// single seed `seed`: its result is a function of the seed and the program id
/// alone, and it fails where the derived point lies on the curve.
#[verifier::external_body]
fn create_program_address(seed: &Key, program_id: &Key) -> (r: Option<Key>)
    ensures
        match r {
            Some(k) => program_address(seed@, program_id@) == Some(k@),
            None => program_address(seed@, program_id@) == None::<Seq<u8>>,
        },
{
    let program = Pubkey::new_from_array(program_id.bytes);
    Pubkey::create_program_address(&[&seed.bytes], &program).ok().map(|k| Key::new(k.to_bytes()))
}

/// Whether `treasurer` is the authority that `program` derives for the pool at `pool`.
pub open spec fn is_pool_authority(pool: Key, program: Key, treasurer: Key) -> bool {
    program_address(pool@, program@) == Some(treasurer@)
}

/// Checks that `treasurer` is the authority derived for the pool at `pool`.
pub fn check_pool_authority(pool: &Key, program_id: &Key, treasurer: &Key) -> (r: bool)
    ensures
        r == is_pool_authority(*pool, *program_id, *treasurer),
{
    match create_program_address(pool, program_id) {
        Some(k) => k == *treasurer,
        None => false,
    }
}

/// The authority derived for the pool at `pool`, if one exists.
pub fn pool_authority(pool: &Key, program_id: &Key) -> (r: Option<Key>)
    ensures
        match r {
            Some(k) => is_pool_authority(*pool, *program_id, k),
            None => program_address(pool@, program_id@) == None::<Seq<u8>>,
        },
{
    create_program_address(pool, program_id)
}

} // verus!
