use vstd::prelude::*;

use solana_program::pubkey::Pubkey;

use crate::error::SwapError;
use crate::ledger::same_key;

verus! {

/// The address that a seed and a bump derive under a program, where they
/// derive one (it must lie off the curve of keys that have a secret).
pub uninterp spec fn program_address_of(seed: Seq<u8>, bump: u8, program: Seq<u8>) -> Option<Seq<u8>>;

/// The first address and bump, from the highest bump down, that a seed
/// derives under a program.
pub uninterp spec fn found_program_address(seed: Seq<u8>, program: Seq<u8>) -> Option<(Seq<u8>, u8)>;

/// Longest seed that a derivation accepts.
pub const MAX_SEED_LEN: usize = 32;

/// Relies on Pubkey::create_program_address with the seeds `[seed, [bump]]`:
/// a pure function of its arguments, which refuses a seed longer than
/// `MAX_SEED_LEN` bytes.
#[verifier::external_body]
fn create_program_address(seed: &[u8], bump: u8, program: &[u8; 32]) -> (r: Option<[u8; 32]>)
    ensures
        r is Some <==> program_address_of(seed@, bump, program@) is Some,
        r is Some ==> r->Some_0@ == program_address_of(seed@, bump, program@)->Some_0,
        seed@.len() > MAX_SEED_LEN ==> r is None,
{
    let bump_seed = [bump];
    Pubkey::create_program_address(&[seed, &bump_seed], &Pubkey::new_from_array(*program))
        .ok()
        .map(|p| p.to_bytes())
}

/// Relies on Pubkey::try_find_program_address with the seeds `[seed]`: a pure
/// function of its arguments, whose address is the one that
/// Pubkey::create_program_address gives for the bump it returns.
#[verifier::external_body]
fn try_find_program_address(seed: &[u8], program: &[u8; 32]) -> (r: Option<([u8; 32], u8)>)
    ensures
        r is Some <==> found_program_address(seed@, program@) is Some,
        r is Some ==> r->Some_0.0@ == found_program_address(seed@, program@)->Some_0.0
            && r->Some_0.1 == found_program_address(seed@, program@)->Some_0.1,
        r is Some ==> program_address_of(seed@, r->Some_0.1, program@) == Some(r->Some_0.0@),
{
    Pubkey::try_find_program_address(&[seed], &Pubkey::new_from_array(*program))
        .map(|(p, bump)| (p.to_bytes(), bump))
}

/// A signing identity that a program holds without any secret key: the
/// address that `seed` and `bump` derive under the program.
#[derive(Clone, Debug)]
pub struct DelegatedAuthority {
    pub seed: Vec<u8>,
    pub bump: u8,
    pub address: [u8; 32],
}

/// Whether `authority`'s seed and bump derive its address under `program`.
pub open spec fn reproduces(program: Seq<u8>, authority: DelegatedAuthority, address: Seq<u8>) -> bool {
    program_address_of(authority.seed@, authority.bump, program) == Some(address)
}

/// Derives the delegated authority of `seed` under `program`, searching the
/// bump from the highest down; `None` where no bump gives an address.
pub fn derive_authority(program: &[u8; 32], seed: &Vec<u8>) -> (r: Option<DelegatedAuthority>)
    ensures
        r is Some <==> found_program_address(seed@, program@) is Some,
        r is Some ==> ({
            let a = r->Some_0;
            let f = found_program_address(seed@, program@)->Some_0;
            &&& a.seed@ == seed@
            &&& a.address@ == f.0
            &&& a.bump == f.1
            &&& reproduces(program@, a, a.address@)
        }),
{
    match try_find_program_address(seed.as_slice(), program) {
        Some((address, bump)) => Some(DelegatedAuthority { seed: seed.clone(), bump, address }),
        None => None,
    }
}

/// Checks that `authority`'s seed and bump reproduce `expected` under
/// `program`: the structural test that grants the right to sign as it.
pub fn check_authority(
    program: &[u8; 32],
    authority: &DelegatedAuthority,
    expected: &[u8; 32],
) -> (r: Result<(), SwapError>)
    ensures
        r is Ok <==> reproduces(program@, *authority, expected@),
        r is Err ==> r == Err::<(), SwapError>(SwapError::AuthorityMismatch),
{
    match create_program_address(authority.seed.as_slice(), authority.bump, program) {
        Some(address) => {
            if same_key(&address, expected) {
                Ok(())
            } else {
                Err(SwapError::AuthorityMismatch)
            }
        },
        None => Err(SwapError::AuthorityMismatch),
    }
}

} // verus!
