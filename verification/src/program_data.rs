//! The address of the account that holds an upgradeable program's code.
use crate::address::{Address, BPF_LOADER_UPGRADEABLE_ID};
use solana_sdk::pubkey::Pubkey;
use vstd::prelude::*;

verus! {

/// What `Pubkey::try_find_program_address` returns for the single seed `seed` and the
/// program `program_id`: the derived address with its bump seed, if there is one.
pub uninterp spec fn find_program_address(seed: Seq<u8>, program_id: Seq<u8>) -> Option<
    (Seq<u8>, u8),
>;

/// The address that the upgradeable loader derives for the code of the program
/// `program_id`: the address found for the program's own address as the only seed, under
/// the loader. No address is known for which the search fails, but nothing excludes one.
pub open spec fn program_data_address(program_id: Seq<u8>) -> Option<Seq<u8>> {
    match find_program_address(program_id, BPF_LOADER_UPGRADEABLE_ID@) {
        Some((address, _)) => Some(address),
        None => None,
    }
}

/// Calls `Pubkey::try_find_program_address` with `seed` as the only seed.
///
/// That function hashes the seeds, a bump seed and the program's address, counting the
/// bump seed down from 255 until the hash is no point of the curve. What it returns
/// depends on its arguments alone, and it returns nothing where no bump seed is found.
#[verifier::external_body]
pub(crate) fn try_find_program_address(seed: &Address, program_id: &Address) -> (found: Option<
    (Address, u8),
>)
    ensures
        match found {
            Some((address, bump)) => find_program_address(seed@, program_id@) == Some(
                (address@, bump),
            ),
            None => find_program_address(seed@, program_id@) is None,
        },
{
    let seeds: [&[u8]; 1] = [&seed.bytes];
    Pubkey::try_find_program_address(&seeds, &Pubkey::new_from_array(program_id.bytes))
        .map(|(address, bump)| (Address { bytes: address.to_bytes() }, bump))
}

/// Whether `derived` is what deriving the program-data address of `program_id` gives.
pub open spec fn derives(program_id: Address, derived: Option<Address>) -> bool {
    match derived {
        Some(address) => program_data_address(program_id@) == Some(address@),
        None => program_data_address(program_id@) is None,
    }
}

/// Derives the address of the program-data account of `program_id`, if it has one.
pub fn get_program_data_address(program_id: &Address) -> (derived: Option<Address>)
    ensures
        derives(*program_id, derived),
{
    let loader = Address::new(BPF_LOADER_UPGRADEABLE_ID);
    match try_find_program_address(program_id, &loader) {
        Some((address, _)) => Some(address),
        None => None,
    }
}

/// Deriving the program-data address of one program twice gives the same answer: what
/// [`get_program_data_address`] returns is decided by the program's address alone.
pub proof fn lemma_program_data_address_stable(
    program_id: Address,
    first: Option<Address>,
    second: Option<Address>,
)
    requires
        derives(program_id, first),
        derives(program_id, second),
    ensures
        first == second,
{
    if let Some(a) = first {
        let b = second->Some_0;
        Address::lemma_view_injective(a, b);
    }
}

} // verus!
