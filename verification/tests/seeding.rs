use genesis_programs::account::Account;
use genesis_programs::address::{
    Address, ADDRESS_LOOKUP_TABLE_ID, BPF_LOADER_ID, BPF_LOADER_UPGRADEABLE_ID, CONFIG_ID,
    FEATURE_GATE_ID, MIGRATE_ADDRESS_LOOKUP_TABLE_FEATURE_ID, MIGRATE_CONFIG_FEATURE_ID,
    MIGRATE_FEATURE_GATE_FEATURE_ID, SPL_ASSOCIATED_TOKEN_ACCOUNT_ID, SPL_MEMO_1_0_ID,
    SPL_MEMO_3_0_ID, SPL_TOKEN_2022_ID, SPL_TOKEN_ID,
};
use genesis_programs::programs::{
    can_build_core_bpf_programs, can_build_spl_programs, core_bpf_programs,
    core_bpf_programs_with, feature_activations, spl_programs, try_core_bpf_programs,
    try_spl_programs,
};
use solana_sdk::account::Account as LedgerAccount;
use solana_sdk::bpf_loader_upgradeable::{get_program_data_address, UpgradeableLoaderState};
use solana_sdk::pubkey::Pubkey;
use solana_sdk::rent::Rent;
use std::cell::RefCell;

const TOKEN: &[u8] = b"\x7fELF token";
const TOKEN_2022: &[u8] = b"\x7fELF token-2022 with extensions";
const MEMO_1: &[u8] = b"\x7fELF memo";
const MEMO_3: &[u8] = b"\x7fELF memo three";
const ASSOCIATED: &[u8] = b"\x7fELF associated token account";
const LOOKUP: &[u8] = b"\x7fELF address lookup table";
const CONFIG: &[u8] = b"\x7fELF config";
const FEATURE: &[u8] = b"\x7fELF feature gate";

fn spl_elfs() -> [&'static [u8]; 5] {
    [TOKEN, TOKEN_2022, MEMO_1, MEMO_3, ASSOCIATED]
}

fn core_elfs() -> [&'static [u8]; 3] {
    [LOOKUP, CONFIG, FEATURE]
}

fn ledger(entry: &(Address, Account)) -> (Pubkey, LedgerAccount) {
    (
        Pubkey::new_from_array(entry.0.to_bytes()),
        LedgerAccount {
            lamports: entry.1.lamports,
            data: entry.1.data.clone(),
            owner: Pubkey::new_from_array(entry.1.owner.to_bytes()),
            executable: entry.1.executable,
            rent_epoch: entry.1.rent_epoch,
        },
    )
}

fn expected_simple(program_id: Pubkey, elf: &[u8], rent: &Rent) -> (Pubkey, LedgerAccount) {
    (
        program_id,
        LedgerAccount {
            lamports: rent.minimum_balance(elf.len()).max(1),
            data: elf.to_vec(),
            owner: solana_sdk::bpf_loader::id(),
            executable: true,
            rent_epoch: 0,
        },
    )
}

fn expected_upgradeable(program_id: Pubkey, elf: &[u8], rent: &Rent) -> Vec<(Pubkey, LedgerAccount)> {
    let programdata_address = get_program_data_address(&program_id);
    let program = LedgerAccount {
        lamports: rent.minimum_balance(UpgradeableLoaderState::size_of_program()),
        data: bincode::serialize(&UpgradeableLoaderState::Program {
            programdata_address,
        })
        .unwrap(),
        owner: solana_sdk::bpf_loader_upgradeable::id(),
        executable: true,
        rent_epoch: 0,
    };
    let mut data = bincode::serialize(&UpgradeableLoaderState::ProgramData {
        slot: 0,
        upgrade_authority_address: Some(Pubkey::default()),
    })
    .unwrap();
    data.extend_from_slice(elf);
    let programdata = LedgerAccount {
        lamports: rent
            .minimum_balance(UpgradeableLoaderState::size_of_programdata_metadata() + elf.len()),
        data,
        owner: solana_sdk::bpf_loader_upgradeable::id(),
        executable: false,
        rent_epoch: 0,
    };
    vec![(program_id, program), (programdata_address, programdata)]
}

fn expected_spl(rent: &Rent) -> Vec<(Pubkey, LedgerAccount)> {
    let mut out = vec![expected_simple(solana_inline_spl::token::ID, TOKEN, rent)];
    out.extend(expected_upgradeable(
        solana_inline_spl::token_2022::ID,
        TOKEN_2022,
        rent,
    ));
    out.push(expected_simple(
        Pubkey::new_from_array(SPL_MEMO_1_0_ID),
        MEMO_1,
        rent,
    ));
    out.push(expected_simple(
        Pubkey::new_from_array(SPL_MEMO_3_0_ID),
        MEMO_3,
        rent,
    ));
    out.push(expected_simple(
        solana_inline_spl::associated_token_account::ID,
        ASSOCIATED,
        rent,
    ));
    out
}

fn expected_core(rent: &Rent, active: [bool; 3]) -> Vec<(Pubkey, LedgerAccount)> {
    let table = [
        (solana_sdk_ids::address_lookup_table::ID, LOOKUP),
        (solana_sdk_ids::config::ID, CONFIG),
        (solana_sdk_ids::feature::ID, FEATURE),
    ];
    let mut out = Vec::new();
    for i in 0..3 {
        if active[i] {
            out.extend(expected_upgradeable(table[i].0, table[i].1, rent));
        }
    }
    out
}

fn as_ledger(accounts: &[(Address, Account)]) -> Vec<(Pubkey, LedgerAccount)> {
    accounts.iter().map(ledger).collect()
}

#[test]
fn spl_programs_lists_six_accounts_in_registry_order() {
    let rent = Rent::default();
    let accounts = spl_programs(&rent, &spl_elfs());
    assert_eq!(accounts.len(), 6);
    let keys: Vec<[u8; 32]> = accounts.iter().map(|entry| entry.0.to_bytes()).collect();
    assert_eq!(keys[0], SPL_TOKEN_ID);
    assert_eq!(keys[1], SPL_TOKEN_2022_ID);
    assert_eq!(
        keys[2],
        get_program_data_address(&Pubkey::new_from_array(SPL_TOKEN_2022_ID)).to_bytes()
    );
    assert_eq!(keys[3], SPL_MEMO_1_0_ID);
    assert_eq!(keys[4], SPL_MEMO_3_0_ID);
    assert_eq!(keys[5], SPL_ASSOCIATED_TOKEN_ACCOUNT_ID);
}

#[test]
fn spl_programs_dispatches_on_the_loader() {
    let accounts = spl_programs(&Rent::default(), &spl_elfs());
    let owners: Vec<[u8; 32]> = accounts.iter().map(|entry| entry.1.owner.to_bytes()).collect();
    assert_eq!(
        owners,
        vec![
            BPF_LOADER_ID,
            BPF_LOADER_UPGRADEABLE_ID,
            BPF_LOADER_UPGRADEABLE_ID,
            BPF_LOADER_ID,
            BPF_LOADER_ID,
            BPF_LOADER_ID
        ]
    );
    let executable: Vec<bool> = accounts.iter().map(|entry| entry.1.executable).collect();
    assert_eq!(executable, vec![true, true, false, true, true, true]);
    assert_eq!(accounts[0].1.data, TOKEN);
    assert_eq!(accounts[1].1.data.len(), 36);
    assert_eq!(&accounts[2].1.data[45..], TOKEN_2022);
    assert_eq!(accounts[3].1.data, MEMO_1);
    assert_eq!(accounts[4].1.data, MEMO_3);
    assert_eq!(accounts[5].1.data, ASSOCIATED);
}

#[test]
fn spl_programs_balances() {
    let accounts = spl_programs(&Rent::default(), &spl_elfs());
    let balances: Vec<u64> = accounts.iter().map(|entry| entry.1.lamports).collect();
    assert_eq!(
        balances,
        vec![
            (128 + TOKEN.len() as u64) * 6960,
            (128 + 36) * 6960,
            (128 + 45 + TOKEN_2022.len() as u64) * 6960,
            (128 + MEMO_1.len() as u64) * 6960,
            (128 + MEMO_3.len() as u64) * 6960,
            (128 + ASSOCIATED.len() as u64) * 6960,
        ]
    );
    let free = spl_programs(&Rent::free(), &spl_elfs());
    let balances: Vec<u64> = free.iter().map(|entry| entry.1.lamports).collect();
    assert_eq!(balances, vec![1, 0, 0, 1, 1, 1]);
}

#[test]
fn spl_programs_agrees_with_the_ledger_types() {
    for rent in [Rent::default(), Rent::free(), Rent::with_slots_per_epoch(32)] {
        let accounts = spl_programs(&rent, &spl_elfs());
        assert_eq!(as_ledger(&accounts), expected_spl(&rent));
    }
}

#[test]
fn spl_programs_is_deterministic() {
    let rent = Rent::default();
    let first = spl_programs(&rent, &spl_elfs());
    let second = spl_programs(&rent, &spl_elfs());
    assert_eq!(first.len(), second.len());
    for (a, b) in first.iter().zip(second.iter()) {
        assert!(a.0 == b.0);
        assert_eq!(a.1, b.1);
    }
}

#[test]
fn spl_programs_with_empty_images() {
    let empty: [&[u8]; 5] = [&[], &[], &[], &[], &[]];
    let accounts = spl_programs(&Rent::free(), &empty);
    assert_eq!(accounts.len(), 6);
    assert_eq!(accounts[0].1.lamports, 1);
    assert_eq!(accounts[0].1.data.len(), 0);
    assert_eq!(accounts[2].1.data.len(), 45);
}

#[test]
fn try_spl_programs_lists_the_same_accounts() {
    let rent = Rent::default();
    assert!(can_build_spl_programs(&rent, &spl_elfs()));
    let listed = try_spl_programs(&rent, &spl_elfs()).unwrap();
    assert_eq!(as_ledger(&listed), expected_spl(&rent));
}

#[test]
fn try_spl_programs_refuses_a_rent_that_overflows() {
    let rent = Rent {
        lamports_per_byte_year: u64::MAX,
        ..Rent::default()
    };
    assert!(!can_build_spl_programs(&rent, &spl_elfs()));
    assert!(try_spl_programs(&rent, &spl_elfs()).is_none());
    let edge = Rent {
        lamports_per_byte_year: u64::MAX / (128 + 45 + TOKEN_2022.len() as u64),
        ..Rent::default()
    };
    assert!(can_build_spl_programs(&edge, &spl_elfs()));
    let beyond = Rent {
        lamports_per_byte_year: u64::MAX / (128 + 45 + TOKEN_2022.len() as u64) + 1,
        ..Rent::default()
    };
    assert!(!can_build_spl_programs(&beyond, &spl_elfs()));
}

#[test]
fn core_bpf_programs_with_no_active_feature_is_empty() {
    let accounts = core_bpf_programs(&Rent::default(), &core_elfs(), |_: &Address| false);
    assert!(accounts.is_empty());
    let accounts = core_bpf_programs_with(&Rent::default(), &core_elfs(), &[false; 3]);
    assert!(accounts.is_empty());
}

#[test]
fn core_bpf_programs_with_every_feature_active_lists_two_accounts_each() {
    let rent = Rent::default();
    let accounts = core_bpf_programs(&rent, &core_elfs(), |_: &Address| true);
    assert_eq!(accounts.len(), 6);
    let keys: Vec<[u8; 32]> = accounts.iter().map(|entry| entry.0.to_bytes()).collect();
    assert_eq!(keys[0], ADDRESS_LOOKUP_TABLE_ID);
    assert_eq!(keys[2], CONFIG_ID);
    assert_eq!(keys[4], FEATURE_GATE_ID);
    assert_eq!(as_ledger(&accounts), expected_core(&rent, [true; 3]));
    for (i, entry) in accounts.iter().enumerate() {
        assert_eq!(entry.1.owner.to_bytes(), BPF_LOADER_UPGRADEABLE_ID);
        assert_eq!(entry.1.executable, i % 2 == 0);
    }
}

#[test]
fn core_bpf_programs_lists_only_the_active_ones() {
    let rent = Rent::default();
    let config_only = core_bpf_programs(&rent, &core_elfs(), |feature: &Address| {
        feature.to_bytes() == MIGRATE_CONFIG_FEATURE_ID
    });
    assert_eq!(as_ledger(&config_only), expected_core(&rent, [false, true, false]));
    assert_eq!(config_only.len(), 2);
    assert_eq!(config_only[0].0.to_bytes(), CONFIG_ID);
    assert_eq!(&config_only[1].1.data[45..], CONFIG);

    let all_but_config = core_bpf_programs(&rent, &core_elfs(), |feature: &Address| {
        feature.to_bytes() != MIGRATE_CONFIG_FEATURE_ID
    });
    assert_eq!(
        as_ledger(&all_but_config),
        expected_core(&rent, [true, false, true])
    );
}

#[test]
fn core_bpf_programs_with_each_choice_of_features() {
    let rent = Rent::default();
    for mask in 0..8u8 {
        let active = [mask & 1 != 0, mask & 2 != 0, mask & 4 != 0];
        let accounts = core_bpf_programs_with(&rent, &core_elfs(), &active);
        assert_eq!(as_ledger(&accounts), expected_core(&rent, active));
        assert_eq!(accounts.len(), 2 * active.iter().filter(|a| **a).count());
    }
}

#[test]
fn core_bpf_programs_asks_about_each_feature_once_in_order() {
    let asked: RefCell<Vec<[u8; 32]>> = RefCell::new(Vec::new());
    let accounts = core_bpf_programs(&Rent::default(), &core_elfs(), |feature: &Address| {
        asked.borrow_mut().push(feature.to_bytes());
        true
    });
    assert_eq!(accounts.len(), 6);
    assert_eq!(
        *asked.borrow(),
        vec![
            MIGRATE_ADDRESS_LOOKUP_TABLE_FEATURE_ID,
            MIGRATE_CONFIG_FEATURE_ID,
            MIGRATE_FEATURE_GATE_FEATURE_ID
        ]
    );
}

#[test]
fn feature_activations_are_the_answers_in_order() {
    let active = feature_activations(&|feature: &Address| {
        feature.to_bytes() == MIGRATE_FEATURE_GATE_FEATURE_ID
    });
    assert_eq!(active, [false, false, true]);
    let active = feature_activations(&|feature: &Address| {
        feature.to_bytes() != MIGRATE_FEATURE_GATE_FEATURE_ID
    });
    assert_eq!(active, [true, true, false]);
}

#[test]
fn core_bpf_programs_is_deterministic() {
    let rent = Rent::default();
    let first = core_bpf_programs(&rent, &core_elfs(), |_: &Address| true);
    let second = core_bpf_programs(&rent, &core_elfs(), |_: &Address| true);
    assert_eq!(as_ledger(&first), as_ledger(&second));
}

#[test]
fn program_data_addresses_match_across_both_lists() {
    let rent = Rent::default();
    let spl = spl_programs(&rent, &spl_elfs());
    let core = core_bpf_programs(&rent, &core_elfs(), |_: &Address| true);
    let pointed = |program: &Account| program.data[4..36].to_vec();
    assert_eq!(pointed(&spl[1].1), spl[2].0.to_bytes().to_vec());
    for i in 0..3 {
        assert_eq!(pointed(&core[2 * i].1), core[2 * i + 1].0.to_bytes().to_vec());
    }
}

#[test]
fn try_core_bpf_programs_lists_the_same_accounts() {
    let rent = Rent::default();
    let listed = try_core_bpf_programs(&rent, &core_elfs(), |_: &Address| true).unwrap();
    assert_eq!(as_ledger(&listed), expected_core(&rent, [true; 3]));
    let none = try_core_bpf_programs(&rent, &core_elfs(), |_: &Address| false).unwrap();
    assert!(none.is_empty());
}

#[test]
fn try_core_bpf_programs_refuses_only_what_an_active_program_needs() {
    let rent = Rent {
        lamports_per_byte_year: u64::MAX,
        ..Rent::default()
    };
    assert!(try_core_bpf_programs(&rent, &core_elfs(), |_: &Address| true).is_none());
    assert!(!can_build_core_bpf_programs(&rent, &core_elfs(), &[false, false, true]));
    assert!(can_build_core_bpf_programs(&rent, &core_elfs(), &[false; 3]));
    let listed = try_core_bpf_programs(&rent, &core_elfs(), |_: &Address| false).unwrap();
    assert!(listed.is_empty());
}
