//! The accounts of one program, shaped as its loader expects them.
use crate::account::{record_of, records_of, Account, AccountView, Record};
use crate::address::{zero_address, Address, BPF_LOADER_ID, BPF_LOADER_UPGRADEABLE_ID};
use crate::loader_state::{
    encode_program, encode_program_data, serialize_state, size_of_program,
    size_of_programdata_metadata, LoaderState, PROGRAMDATA_METADATA_LEN, PROGRAM_LEN,
};
use crate::program_data::{get_program_data_address, program_data_address};
use crate::rent::{covers, minimum_balance, rent_covers, rent_minimum};
use solana_sdk::rent::Rent;
use vstd::prelude::*;
use vstd::slice::slice_to_vec;

verus! {

/// The balance of a program account under the simple loader: the minimum balance, but
/// never less than one lamport, so that the account of an empty program is kept too.
pub open spec fn floored_balance(minimum: u64) -> u64 {
    if minimum == 0 {
        1
    } else {
        minimum
    }
}

/// The account of a program under the simple loader: the code itself, executable.
pub open spec fn bpf_loader_record(program_id: Seq<u8>, elf: Seq<u8>, rent: Rent) -> Record {
    (
        program_id,
        AccountView {
            lamports: floored_balance(minimum_balance(rent, elf.len() as usize)),
            data: elf,
            owner: BPF_LOADER_ID@,
            executable: true,
            rent_epoch: 0,
        },
    )
}

/// Builds the account of a program that the simple loader runs.
pub fn bpf_loader_program_account(program_id: &Address, elf: &[u8], rent: &Rent) -> (entry: (
    Address,
    Account,
))
    requires
        rent_covers(*rent, elf@.len() as int),
    ensures
        record_of(entry) == bpf_loader_record(program_id@, elf@, *rent),
        entry.0 == *program_id,
        entry.1.data@ == elf@,
        entry.1.lamports == floored_balance(minimum_balance(*rent, elf.len())),
        entry.1.executable,
{
    let minimum: u64 = rent_minimum(rent, elf.len());
    let lamports: u64 = if minimum == 0 {
        1
    } else {
        minimum
    };
    (
        *program_id,
        Account {
            lamports,
            data: slice_to_vec(elf),
            owner: Address::new(BPF_LOADER_ID),
            executable: true,
            rent_epoch: 0,
        },
    )
}

/// The program account of an upgradeable program: a pointer to the account that holds the
/// code, executable.
pub open spec fn program_record(program_id: Seq<u8>, programdata_address: Seq<u8>, rent: Rent)
    -> Record {
    (
        program_id,
        AccountView {
            lamports: minimum_balance(rent, PROGRAM_LEN),
            data: encode_program(programdata_address),
            owner: BPF_LOADER_UPGRADEABLE_ID@,
            executable: true,
            rent_epoch: 0,
        },
    )
}

/// The head of the program-data account of a program deployed at genesis: slot 0, and the
/// all-zero address as the upgrade authority.
pub open spec fn genesis_metadata() -> Seq<u8> {
    encode_program_data(0, Some(zero_address()))
}

/// The program-data account of an upgradeable program: the metadata, then the code; not
/// executable itself.
pub open spec fn programdata_record(programdata_address: Seq<u8>, elf: Seq<u8>, rent: Rent)
    -> Record {
    (
        programdata_address,
        AccountView {
            lamports: minimum_balance(rent, (PROGRAMDATA_METADATA_LEN + elf.len()) as usize),
            data: genesis_metadata() + elf,
            owner: BPF_LOADER_UPGRADEABLE_ID@,
            executable: false,
            rent_epoch: 0,
        },
    )
}

/// The two accounts of an upgradeable program, the program account first. Where no
/// program-data address can be derived for the program there are none.
pub open spec fn bpf_loader_upgradeable_records(program_id: Seq<u8>, elf: Seq<u8>, rent: Rent)
    -> Seq<Record> {
    match program_data_address(program_id) {
        Some(programdata_address) => seq![
            program_record(program_id, programdata_address, rent),
            programdata_record(programdata_address, elf, rent),
        ],
        None => seq![],
    }
}

/// Whether the accounts of an upgradeable program with `elf_len` bytes of code can be
/// built: the program has a program-data address, the data of the program-data account
/// has a length that fits in `usize`, and `rent` can price it.
pub open spec fn upgradeable_buildable(program_id: Seq<u8>, elf_len: int, rent: Rent) -> bool {
    &&& program_data_address(program_id) is Some
    &&& PROGRAMDATA_METADATA_LEN + elf_len <= usize::MAX
    &&& rent_covers(rent, PROGRAMDATA_METADATA_LEN + elf_len)
}

/// A schedule that can price some length can price every shorter one.
pub proof fn lemma_rent_covers_shorter(rent: Rent, shorter: int, longer: int)
    requires
        0 <= shorter <= longer,
        rent_covers(rent, longer),
    ensures
        rent_covers(rent, shorter),
{
    let rate = rent.lamports_per_byte_year as int;
    assert((128 + shorter) * rate <= (128 + longer) * rate) by (nonlinear_arith)
        requires
            0 <= shorter <= longer,
            0 <= rate,
    ;
}

/// The head of the program-data account of a genesis program is the same 45 bytes for
/// every program: the kind, 3; eight zero bytes for slot 0; one byte that says that an
/// authority follows; and the 32 zero bytes of that authority.
pub proof fn lemma_genesis_metadata()
    ensures
        genesis_metadata() == seq![3u8, 0u8, 0u8, 0u8, 0u8, 0u8, 0u8, 0u8, 0u8, 0u8, 0u8, 0u8, 1u8]
            + zero_address(),
        genesis_metadata().len() == PROGRAMDATA_METADATA_LEN,
{
    vstd::bytes::spec_u64_to_le_bytes_to_open(0);
    assert(0u64 & 0xff == 0 && (0u64 >> 8) & 0xff == 0 && (0u64 >> 16) & 0xff == 0 && (0u64 >> 24)
        & 0xff == 0 && (0u64 >> 32) & 0xff == 0 && (0u64 >> 40) & 0xff == 0 && (0u64 >> 48) & 0xff
        == 0 && (0u64 >> 56) & 0xff == 0) by (bit_vector);
    assert(genesis_metadata() =~= seq![
        3u8,
        0u8,
        0u8,
        0u8,
        0u8,
        0u8,
        0u8,
        0u8,
        0u8,
        0u8,
        0u8,
        0u8,
        1u8,
    ] + zero_address());
}

/// The simple loader gets one account per program: it holds the code byte for byte, is
/// executable, and its balance is the minimum balance for the code's length, or one
/// lamport where that minimum is zero.
pub proof fn lemma_bpf_loader_record(program_id: Seq<u8>, elf: Seq<u8>, rent: Rent)
    ensures
        ({
            let (address, account) = bpf_loader_record(program_id, elf, rent);
            let minimum = minimum_balance(rent, elf.len() as usize);
            &&& address == program_id
            &&& account.data == elf
            &&& account.executable
            &&& account.owner == BPF_LOADER_ID@
            &&& minimum != 0 ==> account.lamports == minimum
            &&& minimum == 0 ==> account.lamports == 1
        }),
{
}

/// The upgradeable loader gets two accounts per program. The program account, at the
/// program's address, is executable and holds 36 bytes whatever the code is: the kind and
/// the address of the program-data account. The program-data account, at the derived
/// address, is not executable and holds the 45 bytes of the genesis metadata followed by
/// the code.
pub proof fn lemma_bpf_loader_upgradeable_records(
    program_id: Address,
    programdata_address: Address,
    elf: Seq<u8>,
    rent: Rent,
)
    requires
        program_data_address(program_id@) == Some(programdata_address@),
    ensures
        ({
            let records = bpf_loader_upgradeable_records(program_id@, elf, rent);
            &&& records.len() == 2
            &&& records[0].0 == program_id@
            &&& records[0].1.executable
            &&& records[0].1.data == encode_program(programdata_address@)
            &&& records[0].1.data.len() == PROGRAM_LEN
            &&& records[0].1.lamports == minimum_balance(rent, PROGRAM_LEN)
            &&& records[1].0 == programdata_address@
            &&& !records[1].1.executable
            &&& records[1].1.data == genesis_metadata() + elf
            &&& records[1].1.data.len() == PROGRAMDATA_METADATA_LEN + elf.len()
            &&& records[1].1.data.subrange(PROGRAMDATA_METADATA_LEN as int, records[1].1.data.len() as int) == elf
            &&& records[0].1.owner == BPF_LOADER_UPGRADEABLE_ID@
            &&& records[1].1.owner == BPF_LOADER_UPGRADEABLE_ID@
        }),
{
    lemma_genesis_metadata();
    let records = bpf_loader_upgradeable_records(program_id@, elf, rent);
    assert(records[1].1.data.subrange(
        PROGRAMDATA_METADATA_LEN as int,
        records[1].1.data.len() as int,
    ) =~= elf);
}

/// Builds the two accounts of a program that the upgradeable loader runs: the program
/// account at `program_id`, then the program-data account at the address derived from it.
pub fn bpf_loader_upgradeable_program_accounts(program_id: &Address, elf: &[u8], rent: &Rent)
    -> (entries: [(Address, Account); 2])
    requires
        upgradeable_buildable(program_id@, elf@.len() as int, *rent),
    ensures
        records_of(entries@) == bpf_loader_upgradeable_records(program_id@, elf@, *rent),
        entries[0].0 == *program_id,
        program_data_address(program_id@) == Some(entries[1].0@),
        entries[0].1.executable,
        !entries[1].1.executable,
        entries[0].1.data@.len() == PROGRAM_LEN,
        entries[1].1.data@ == genesis_metadata() + elf@,
        entries[1].1.data@.len() == PROGRAMDATA_METADATA_LEN + elf@.len(),
{
    let programdata_address: Address = get_program_data_address(program_id).unwrap();
    let program_account = {
        let space: usize = size_of_program();
        proof {
            lemma_rent_covers_shorter(
                *rent,
                space as int,
                PROGRAMDATA_METADATA_LEN + elf@.len(),
            );
        }
        let lamports: u64 = rent_minimum(rent, space);
        let data = serialize_state(&LoaderState::Program { programdata_address });
        Account {
            lamports,
            data,
            owner: Address::new(BPF_LOADER_UPGRADEABLE_ID),
            executable: true,
            rent_epoch: 0,
        }
    };
    let programdata_account = {
        let space: usize = size_of_programdata_metadata() + elf.len();
        let lamports: u64 = rent_minimum(rent, space);
        let mut data = serialize_state(
            &LoaderState::ProgramData {
                slot: 0,
                upgrade_authority_address: Some(Address::default()),
            },
        );
        let ghost metadata = data@;
        data.extend_from_slice(elf);
        assert(data@ =~= metadata + elf@);
        Account {
            lamports,
            data,
            owner: Address::new(BPF_LOADER_UPGRADEABLE_ID),
            executable: false,
            rent_epoch: 0,
        }
    };
    let entries = [(*program_id, program_account), (programdata_address, programdata_account)];
    proof {
        lemma_genesis_metadata();
        assert(records_of(entries@) =~= bpf_loader_upgradeable_records(program_id@, elf@, *rent));
    }
    entries
}

/// Tells whether the accounts of the upgradeable program `program_id`, with `elf_len` bytes
/// of code, can be built under `rent`.
pub fn can_build_upgradeable(program_id: &Address, elf_len: usize, rent: &Rent) -> (buildable:
    bool)
    ensures
        buildable == upgradeable_buildable(program_id@, elf_len as int, *rent),
{
    if elf_len > usize::MAX - PROGRAMDATA_METADATA_LEN {
        return false;
    }
    if !covers(rent, PROGRAMDATA_METADATA_LEN + elf_len) {
        return false;
    }
    get_program_data_address(program_id).is_some()
}

} // verus!
