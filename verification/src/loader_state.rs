//! The metadata that the upgradeable loader keeps at the head of its accounts.
use crate::address::Address;
use solana_sdk::bpf_loader_upgradeable::UpgradeableLoaderState;
use solana_sdk::pubkey::Pubkey;
use vstd::bytes::spec_u64_to_le_bytes;
use vstd::prelude::*;

verus! {

/// The length of an encoded [`LoaderState::Program`].
pub const PROGRAM_LEN: usize = 36;

/// The length of an encoded [`LoaderState::ProgramData`] that names an upgrade authority.
pub const PROGRAMDATA_METADATA_LEN: usize = 45;

/// The two kinds of metadata that the upgradeable loader reads from the accounts of a
/// deployed program.
#[derive(Clone, Copy, Debug)]
pub enum LoaderState {
    /// The program account: it only points at the account that holds the code.
    Program { programdata_address: Address },
    /// The head of the program-data account; the code follows it.
    ProgramData { slot: u64, upgrade_authority_address: Option<Address> },
}

/// The encoding of a program account's state: the kind, 2, as a 32-bit little-endian
/// number, then the address of the program-data account.
pub open spec fn encode_program(programdata_address: Seq<u8>) -> Seq<u8> {
    seq![2u8, 0u8, 0u8, 0u8] + programdata_address
}

/// The encoding of an optional address: one byte that tells whether it is there, then its
/// bytes if it is.
pub open spec fn encode_optional_address(address: Option<Seq<u8>>) -> Seq<u8> {
    match address {
        Some(bytes) => seq![1u8] + bytes,
        None => seq![0u8],
    }
}

/// The encoding of a program-data account's state: the kind, 3, as a 32-bit little-endian
/// number, then the slot as a 64-bit little-endian number, then the upgrade authority.
pub open spec fn encode_program_data(slot: u64, upgrade_authority_address: Option<Seq<u8>>) -> Seq<
    u8,
> {
    seq![3u8, 0u8, 0u8, 0u8] + spec_u64_to_le_bytes(slot) + encode_optional_address(
        upgrade_authority_address,
    )
}

/// The bytes of an optional address.
pub open spec fn optional_address_view(address: Option<Address>) -> Option<Seq<u8>> {
    match address {
        Some(a) => Some(a@),
        None => None,
    }
}

impl LoaderState {
    /// The bytes of the state: the kind as a 32-bit little-endian number, then the fields
    /// in their order, an integer in little-endian order and an address as its 32 bytes.
    pub open spec fn encoding(self) -> Seq<u8> {
        match self {
            LoaderState::Program { programdata_address } => encode_program(programdata_address@),
            LoaderState::ProgramData { slot, upgrade_authority_address } => encode_program_data(
                slot,
                optional_address_view(upgrade_authority_address),
            ),
        }
    }

    /// The encoding of a program account is 36 bytes long; that of program data is 45 bytes
    /// long when it names an upgrade authority, and 13 bytes long when it names none.
    pub proof fn lemma_encoding_len(self)
        ensures
            self is Program ==> self.encoding().len() == PROGRAM_LEN,
            self matches LoaderState::ProgramData { upgrade_authority_address: Some(_), .. }
                ==> self.encoding().len() == PROGRAMDATA_METADATA_LEN,
            self matches LoaderState::ProgramData { upgrade_authority_address: None, .. }
                ==> self.encoding().len() == 13,
    {
        vstd::bytes::lemma_auto_spec_u64_to_from_le_bytes();
    }
}

/// Calls `bincode::serialize` on the `UpgradeableLoaderState` that says what `state` says.
///
/// With the configuration of that function bincode writes an enum as the index of the
/// variant in four little-endian bytes followed by the fields in their order, a `u64` as
/// eight little-endian bytes, an `Option` as one byte, 0 or 1, followed by the value if
/// there is one, and a `Pubkey` as its 32 bytes. `Program` and `ProgramData` are the
/// variants with the indices 2 and 3. Encoding into a vector without a size limit cannot
/// fail for a value of this shape, so the result is taken out of the `Result`.
#[verifier::external_body]
pub(crate) fn serialize_state(state: &LoaderState) -> (bytes: Vec<u8>)
    ensures
        bytes@ == state.encoding(),
{
    let outside = match *state {
        LoaderState::Program { programdata_address } => UpgradeableLoaderState::Program {
            programdata_address: Pubkey::new_from_array(programdata_address.bytes),
        },
        LoaderState::ProgramData { slot, upgrade_authority_address } => {
            UpgradeableLoaderState::ProgramData {
                slot,
                upgrade_authority_address: upgrade_authority_address
                    .map(|a| Pubkey::new_from_array(a.bytes)),
            }
        },
    };
    bincode::serialize(&outside).unwrap()
}

/// Calls `UpgradeableLoaderState::size_of_program`, which returns the constant 36.
#[verifier::external_body]
pub(crate) fn size_of_program() -> (size: usize)
    ensures
        size == PROGRAM_LEN,
{
    UpgradeableLoaderState::size_of_program()
}

/// Calls `UpgradeableLoaderState::size_of_programdata_metadata`, which returns the
/// constant 45.
#[verifier::external_body]
pub(crate) fn size_of_programdata_metadata() -> (size: usize)
    ensures
        size == PROGRAMDATA_METADATA_LEN,
{
    UpgradeableLoaderState::size_of_programdata_metadata()
}

} // verus!
