//! The programs that a ledger holds from its first slot on.
use crate::address::{
    Address, ADDRESS_LOOKUP_TABLE_ID, BPF_LOADER_ID, BPF_LOADER_UPGRADEABLE_ID, CONFIG_ID,
    FEATURE_GATE_ID, MIGRATE_ADDRESS_LOOKUP_TABLE_FEATURE_ID, MIGRATE_CONFIG_FEATURE_ID,
    MIGRATE_FEATURE_GATE_FEATURE_ID, SPL_ASSOCIATED_TOKEN_ACCOUNT_ID, SPL_MEMO_1_0_ID,
    SPL_MEMO_3_0_ID, SPL_TOKEN_2022_ID, SPL_TOKEN_ID,
};
use vstd::prelude::*;

verus! {

/// The number of programs that are always there.
pub const SPL_PROGRAM_COUNT: usize = 5;

/// The number of programs that have moved from the runtime to Core BPF.
pub const CORE_BPF_PROGRAM_COUNT: usize = 3;

/// The programs that are always there, each with the loader that owns it, in the order in
/// which their accounts are listed: Token, Token-2022, Memo 1.0, Memo 3.0 and Associated
/// Token Account.
pub const SPL_PROGRAMS: [([u8; 32], [u8; 32]); 5] = [
    (SPL_TOKEN_ID, BPF_LOADER_ID),
    (SPL_TOKEN_2022_ID, BPF_LOADER_UPGRADEABLE_ID),
    (SPL_MEMO_1_0_ID, BPF_LOADER_ID),
    (SPL_MEMO_3_0_ID, BPF_LOADER_ID),
    (SPL_ASSOCIATED_TOKEN_ACCOUNT_ID, BPF_LOADER_ID),
];

/// The programs that once were part of the runtime, each with the feature that moves it to
/// Core BPF, in the order in which their accounts are listed: Address Lookup Table, Config
/// and Feature Gate. All of them are owned by the upgradeable loader.
pub const CORE_BPF_PROGRAMS: [([u8; 32], [u8; 32]); 3] = [
    (ADDRESS_LOOKUP_TABLE_ID, MIGRATE_ADDRESS_LOOKUP_TABLE_FEATURE_ID),
    (CONFIG_ID, MIGRATE_CONFIG_FEATURE_ID),
    (FEATURE_GATE_ID, MIGRATE_FEATURE_GATE_FEATURE_ID),
];

/// The address of the `i`-th program that is always there.
pub open spec fn spl_program_id(i: int) -> Address {
    Address { bytes: SPL_PROGRAMS[i].0 }
}

/// The loader that owns the `i`-th program that is always there.
pub open spec fn spl_loader_id(i: int) -> Address {
    Address { bytes: SPL_PROGRAMS[i].1 }
}

/// The address of the `i`-th Core BPF program.
pub open spec fn core_bpf_program_id(i: int) -> Address {
    Address { bytes: CORE_BPF_PROGRAMS[i].0 }
}

/// The feature that moves the `i`-th Core BPF program out of the runtime.
pub open spec fn core_bpf_feature_id(i: int) -> Address {
    Address { bytes: CORE_BPF_PROGRAMS[i].1 }
}

/// The `i`-th program that is always there, and the loader that owns it.
pub fn spl_program(i: usize) -> (entry: (Address, Address))
    requires
        i < SPL_PROGRAM_COUNT,
    ensures
        entry.0 == spl_program_id(i as int),
        entry.1 == spl_loader_id(i as int),
{
    let (program_id, loader_id) = SPL_PROGRAMS[i];
    (Address::new(program_id), Address::new(loader_id))
}

/// The `i`-th Core BPF program, and the feature that moves it out of the runtime.
pub fn core_bpf_program(i: usize) -> (entry: (Address, Address))
    requires
        i < CORE_BPF_PROGRAM_COUNT,
    ensures
        entry.0 == core_bpf_program_id(i as int),
        entry.1 == core_bpf_feature_id(i as int),
{
    let (program_id, feature_id) = CORE_BPF_PROGRAMS[i];
    (Address::new(program_id), Address::new(feature_id))
}

} // verus!
