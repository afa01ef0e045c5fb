//! The rent schedule: what an account of a given size must hold to stay in the ledger.
use solana_sdk::rent::Rent;
use vstd::float::FloatBitsProperties;
use vstd::prelude::*;

verus! {

/// `solana_sdk::rent::Rent`, the rent schedule, with its three public fields: the rate in
/// lamports per byte and year, the exemption threshold in years, and the share of collected
/// rent that is burned.
#[verifier::external_type_specification]
pub struct ExRent(Rent);

/// The number of bytes that the ledger charges for an account on top of its data.
pub const ACCOUNT_STORAGE_OVERHEAD: u64 = 128;

/// What `Rent::minimum_balance` returns for a schedule with the given rate and the given
/// bit pattern of its exemption threshold, on a data length on which it does not overflow.
pub uninterp spec fn rent_minimum_balance(
    lamports_per_byte_year: u64,
    exemption_threshold_bits: u64,
    data_len: usize,
) -> u64;

/// The minimum balance that `rent` asks of an account with `data_len` bytes of data.
pub open spec fn minimum_balance(rent: Rent, data_len: usize) -> u64 {
    rent_minimum_balance(
        rent.lamports_per_byte_year,
        rent.exemption_threshold.to_bits_spec(),
        data_len,
    )
}

/// Whether the charged size of `data_len` bytes, and its yearly price under `rent`, fit in
/// 64 bits. Outside of these lengths the schedule's own arithmetic overflows.
pub open spec fn rent_covers(rent: Rent, data_len: int) -> bool {
    &&& 0 <= data_len
    &&& ACCOUNT_STORAGE_OVERHEAD + data_len <= u64::MAX
    &&& (ACCOUNT_STORAGE_OVERHEAD + data_len) * rent.lamports_per_byte_year <= u64::MAX
}

/// Calls `Rent::minimum_balance`.
///
/// That method multiplies the charged size, `128 + data_len`, by the rate in 64-bit
/// arithmetic, and then scales the product by the exemption threshold in floating point.
/// The contract leaves out the lengths on which the integer part overflows, and says of the
/// result only that it is the value the method computes from the rate, the threshold and
/// the length.
#[verifier::external_body]
pub(crate) fn rent_minimum(rent: &Rent, data_len: usize) -> (lamports: u64)
    requires
        rent_covers(*rent, data_len as int),
    ensures
        lamports == rent_minimum_balance(
            rent.lamports_per_byte_year,
            rent.exemption_threshold.to_bits_spec(),
            data_len,
        ),
{
    rent.minimum_balance(data_len)
}

/// Tells whether `rent` can price an account with `data_len` bytes of data.
pub fn covers(rent: &Rent, data_len: usize) -> (fits: bool)
    ensures
        fits == rent_covers(*rent, data_len as int),
{
    let charged: u128 = 128u128 + data_len as u128;
    if charged > u64::MAX as u128 {
        return false;
    }
    let rate: u128 = rent.lamports_per_byte_year as u128;
    assert(charged * rate <= u128::MAX) by (nonlinear_arith)
        requires
            charged <= u64::MAX,
            rate <= u64::MAX,
    ;
    charged * rate <= u64::MAX as u128
}

} // verus!
