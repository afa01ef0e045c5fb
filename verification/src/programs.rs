//! The accounts of the genesis programs, ready to be put into a ledger.
use crate::account::{records_of, Account, Record};
use crate::address::{Address, BPF_LOADER_ID, BPF_LOADER_UPGRADEABLE_ID};
use crate::builder::{
    bpf_loader_program_account, bpf_loader_record, bpf_loader_upgradeable_program_accounts,
    bpf_loader_upgradeable_records, can_build_upgradeable, upgradeable_buildable,
};
use crate::registry::{
    core_bpf_feature_id, core_bpf_program, core_bpf_program_id, spl_loader_id, spl_program,
    spl_program_id, CORE_BPF_PROGRAM_COUNT, SPL_PROGRAM_COUNT,
};
use crate::rent::{covers, minimum_balance, rent_covers};
use solana_sdk::rent::Rent;
use vstd::prelude::*;

verus! {

/// The contents of a list of program images.
pub open spec fn images(elfs: Seq<&[u8]>) -> Seq<Seq<u8>> {
    elfs.map_values(|elf: &[u8]| elf@)
}

/// The accounts of the `i`-th program that is always there, with `elf` as its code: two
/// where the upgradeable loader owns it, one otherwise.
pub open spec fn spl_program_records(i: int, elf: Seq<u8>, rent: Rent) -> Seq<Record> {
    if spl_loader_id(i)@ == BPF_LOADER_UPGRADEABLE_ID@ {
        bpf_loader_upgradeable_records(spl_program_id(i)@, elf, rent)
    } else {
        seq![bpf_loader_record(spl_program_id(i)@, elf, rent)]
    }
}

/// The accounts of all programs that are always there, program by program in the order of
/// the registry, with `elfs[i]` as the code of the `i`-th.
pub open spec fn spl_records(elfs: Seq<Seq<u8>>, rent: Rent) -> Seq<Record> {
    Seq::new(SPL_PROGRAM_COUNT as nat, |i: int| spl_program_records(i, elfs[i], rent)).flatten()
}

/// Whether the accounts of the `i`-th program that is always there can be built from
/// `elf_len` bytes of code.
pub open spec fn spl_program_buildable(i: int, elf_len: int, rent: Rent) -> bool {
    if spl_loader_id(i)@ == BPF_LOADER_UPGRADEABLE_ID@ {
        upgradeable_buildable(spl_program_id(i)@, elf_len, rent)
    } else {
        rent_covers(rent, elf_len)
    }
}

/// Whether the accounts of all programs that are always there can be built.
pub open spec fn spl_buildable(elfs: Seq<Seq<u8>>, rent: Rent) -> bool {
    forall|i: int| 0 <= i < SPL_PROGRAM_COUNT ==> spl_program_buildable(i, elfs[i].len() as int, rent)
}

/// Moves the two accounts of an upgradeable program to the end of `accounts`.
fn append_pair(accounts: &mut Vec<(Address, Account)>, pair: [(Address, Account); 2])
    ensures
        final(accounts)@ == old(accounts)@ + pair@,
{
    let boxed: Box<[(Address, Account)]> = Box::new(pair);
    let mut both: Vec<(Address, Account)> = boxed.into_vec();
    accounts.append(&mut both);
}

/// Lists the accounts of the programs that are always there.
///
/// `elfs` holds the code of the programs in the order of the registry.
pub fn spl_programs(rent: &Rent, elfs: &[&[u8]; 5]) -> (accounts: Vec<(Address, Account)>)
    requires
        spl_buildable(images(elfs@), *rent),
    ensures
        records_of(accounts@) == spl_records(images(elfs@), *rent),
        accounts@.len() == SPL_PROGRAM_COUNT + 1,
{
    let ghost parts = Seq::new(
        SPL_PROGRAM_COUNT as nat,
        |i: int| spl_program_records(i, images(elfs@)[i], *rent),
    );
    let mut accounts: Vec<(Address, Account)> = Vec::new();
    let mut i: usize = 0;
    assert(parts.take(0) =~= Seq::<Seq<Record>>::empty());
    while i < SPL_PROGRAM_COUNT
        invariant
            i <= SPL_PROGRAM_COUNT,
            spl_buildable(images(elfs@), *rent),
            parts == Seq::new(
                SPL_PROGRAM_COUNT as nat,
                |i: int| spl_program_records(i, images(elfs@)[i], *rent),
            ),
            records_of(accounts@) == parts.take(i as int).flatten(),
        decreases SPL_PROGRAM_COUNT - i,
    {
        let (program_id, loader_id) = spl_program(i);
        let elf: &[u8] = elfs[i];
        let ghost before = accounts@;
        assert(images(elfs@)[i as int] == elf@);
        assert(spl_program_buildable(i as int, elf@.len() as int, *rent));
        if loader_id == Address::new(BPF_LOADER_UPGRADEABLE_ID) {
            let pair = bpf_loader_upgradeable_program_accounts(&program_id, elf, rent);
            append_pair(&mut accounts, pair);
            assert(records_of(accounts@) =~= records_of(before) + parts[i as int]);
        } else {
            let program = bpf_loader_program_account(&program_id, elf, rent);
            accounts.push(program);
            assert(records_of(accounts@) =~= records_of(before) + parts[i as int]);
        }
        proof {
            assert(parts.take(i + 1) =~= parts.take(i as int).push(parts[i as int]));
            parts.take(i as int).lemma_flatten_push(parts[i as int]);
        }
        i += 1;
    }
    proof {
        assert(parts.take(SPL_PROGRAM_COUNT as int) =~= parts);
        lemma_spl_records_len(images(elfs@), *rent);
    }
    accounts
}

/// Tells whether the accounts of all programs that are always there can be built.
pub fn can_build_spl_programs(rent: &Rent, elfs: &[&[u8]; 5]) -> (buildable: bool)
    ensures
        buildable == spl_buildable(images(elfs@), *rent),
{
    let mut i: usize = 0;
    while i < SPL_PROGRAM_COUNT
        invariant
            i <= SPL_PROGRAM_COUNT,
            forall|j: int|
                0 <= j < i ==> spl_program_buildable(j, images(elfs@)[j].len() as int, *rent),
        decreases SPL_PROGRAM_COUNT - i,
    {
        let (program_id, loader_id) = spl_program(i);
        let elf: &[u8] = elfs[i];
        assert(images(elfs@)[i as int] == elf@);
        let buildable = if loader_id == Address::new(BPF_LOADER_UPGRADEABLE_ID) {
            can_build_upgradeable(&program_id, elf.len(), rent)
        } else {
            covers(rent, elf.len())
        };
        if !buildable {
            assert(!spl_program_buildable(i as int, images(elfs@)[i as int].len() as int, *rent));
            return false;
        }
        i += 1;
    }
    true
}

/// Lists the accounts of the programs that are always there, if all of them can be built.
pub fn try_spl_programs(rent: &Rent, elfs: &[&[u8]; 5]) -> (listed: Option<
    Vec<(Address, Account)>,
>)
    ensures
        listed is Some <==> spl_buildable(images(elfs@), *rent),
        listed matches Some(accounts) ==> (records_of(accounts@) == spl_records(
            images(elfs@),
            *rent,
        ) && accounts@.len() == SPL_PROGRAM_COUNT + 1),
{
    if can_build_spl_programs(rent, elfs) {
        Some(spl_programs(rent, elfs))
    } else {
        None
    }
}

/// The accounts of the `i`-th Core BPF program, with `elf` as its code: the two accounts
/// of an upgradeable program where its feature is active, none where it is not.
pub open spec fn core_bpf_program_records(i: int, active: bool, elf: Seq<u8>, rent: Rent) -> Seq<
    Record,
> {
    if active {
        bpf_loader_upgradeable_records(core_bpf_program_id(i)@, elf, rent)
    } else {
        seq![]
    }
}

/// The accounts of the Core BPF programs whose features are active, program by program in
/// the order of the registry, with `elfs[i]` as the code of the `i`-th and `active[i]`
/// telling whether its feature is active.
pub open spec fn core_bpf_records(elfs: Seq<Seq<u8>>, active: Seq<bool>, rent: Rent) -> Seq<
    Record,
> {
    Seq::new(
        CORE_BPF_PROGRAM_COUNT as nat,
        |i: int| core_bpf_program_records(i, active[i], elfs[i], rent),
    ).flatten()
}

/// Whether the accounts of the Core BPF programs whose features are active can be built.
pub open spec fn core_bpf_buildable(elfs: Seq<Seq<u8>>, active: Seq<bool>, rent: Rent) -> bool {
    forall|i: int|
        0 <= i < CORE_BPF_PROGRAM_COUNT && active[i] ==> upgradeable_buildable(
            core_bpf_program_id(i)@,
            elfs[i].len() as int,
            rent,
        )
}

/// Whether no feature of the registry is active.
pub open spec fn none_active(active: Seq<bool>) -> bool {
    forall|i: int| 0 <= i < CORE_BPF_PROGRAM_COUNT ==> !active[i]
}

/// Whether every feature of the registry is active.
pub open spec fn all_active(active: Seq<bool>) -> bool {
    forall|i: int| 0 <= i < CORE_BPF_PROGRAM_COUNT ==> active[i]
}

/// Lists the accounts of the Core BPF programs, given for each program of the registry
/// whether its feature is active.
///
/// `elfs` holds the code of the programs in the order of the registry.
pub fn core_bpf_programs_with(rent: &Rent, elfs: &[&[u8]; 3], active: &[bool; 3]) -> (accounts:
    Vec<(Address, Account)>)
    requires
        core_bpf_buildable(images(elfs@), active@, *rent),
    ensures
        records_of(accounts@) == core_bpf_records(images(elfs@), active@, *rent),
        none_active(active@) ==> accounts@.len() == 0,
        all_active(active@) ==> accounts@.len() == 2 * CORE_BPF_PROGRAM_COUNT,
{
    let ghost parts = Seq::new(
        CORE_BPF_PROGRAM_COUNT as nat,
        |i: int| core_bpf_program_records(i, active@[i], images(elfs@)[i], *rent),
    );
    let mut accounts: Vec<(Address, Account)> = Vec::new();
    let mut i: usize = 0;
    assert(parts.take(0) =~= Seq::<Seq<Record>>::empty());
    while i < CORE_BPF_PROGRAM_COUNT
        invariant
            i <= CORE_BPF_PROGRAM_COUNT,
            core_bpf_buildable(images(elfs@), active@, *rent),
            parts == Seq::new(
                CORE_BPF_PROGRAM_COUNT as nat,
                |i: int| core_bpf_program_records(i, active@[i], images(elfs@)[i], *rent),
            ),
            records_of(accounts@) == parts.take(i as int).flatten(),
        decreases CORE_BPF_PROGRAM_COUNT - i,
    {
        let ghost before = accounts@;
        if active[i] {
            let (program_id, _) = core_bpf_program(i);
            let elf: &[u8] = elfs[i];
            assert(images(elfs@)[i as int] == elf@);
            let pair = bpf_loader_upgradeable_program_accounts(&program_id, elf, rent);
            append_pair(&mut accounts, pair);
        }
        proof {
            assert(records_of(accounts@) =~= records_of(before) + parts[i as int]);
            assert(parts.take(i + 1) =~= parts.take(i as int).push(parts[i as int]));
            parts.take(i as int).lemma_flatten_push(parts[i as int]);
        }
        i += 1;
    }
    proof {
        assert(parts.take(CORE_BPF_PROGRAM_COUNT as int) =~= parts);
        if none_active(active@) {
            lemma_core_bpf_none_active(images(elfs@), active@, *rent);
        }
        if all_active(active@) {
            lemma_core_bpf_all_active(images(elfs@), active@, *rent);
        }
    }
    accounts
}

/// Whether `active` is what `is_feature_active` may answer for the features of the
/// registry, in its order.
pub open spec fn answers_of<F: Fn(&Address) -> bool>(is_feature_active: F, active: Seq<bool>)
    -> bool {
    &&& active.len() == CORE_BPF_PROGRAM_COUNT
    &&& forall|i: int|
        0 <= i < CORE_BPF_PROGRAM_COUNT ==> call_ensures(
            is_feature_active,
            (&core_bpf_feature_id(i),),
            #[trigger] active[i],
        )
}

/// Whether `is_feature_active` can be asked about each feature of the registry.
pub open spec fn accepts_features<F: Fn(&Address) -> bool>(is_feature_active: F) -> bool {
    forall|i: int|
        0 <= i < CORE_BPF_PROGRAM_COUNT ==> call_requires(
            is_feature_active,
            (&#[trigger] core_bpf_feature_id(i),),
        )
}

/// Whether `is_feature_active` gives only one answer for each feature of the registry.
pub open spec fn answers_once<F: Fn(&Address) -> bool>(is_feature_active: F) -> bool {
    forall|i: int, first: bool, second: bool|
        0 <= i < CORE_BPF_PROGRAM_COUNT && #[trigger] call_ensures(
            is_feature_active,
            (&core_bpf_feature_id(i),),
            first,
        ) && #[trigger] call_ensures(is_feature_active, (&core_bpf_feature_id(i),), second)
            ==> first == second
}

/// Whether `accounts` is a list that [`core_bpf_programs`] may return for `elfs`, `rent`
/// and `is_feature_active`.
pub open spec fn lists_core_bpf_programs<F: Fn(&Address) -> bool>(
    rent: Rent,
    elfs: Seq<Seq<u8>>,
    is_feature_active: F,
    accounts: Seq<(Address, Account)>,
) -> bool {
    exists|active: Seq<bool>|
        answers_of(is_feature_active, active) && records_of(accounts) == core_bpf_records(
            elfs,
            active,
            rent,
        )
}

/// Whether `listed` is what [`try_core_bpf_programs`] may return for `elfs`, `rent` and
/// `is_feature_active`: for some answers of the predicate, nothing where the accounts of
/// an active program cannot be built, and the list of the accounts where they can.
pub open spec fn lists_core_bpf_programs_if_buildable<F: Fn(&Address) -> bool>(
    rent: Rent,
    elfs: Seq<Seq<u8>>,
    is_feature_active: F,
    listed: Option<Vec<(Address, Account)>>,
) -> bool {
    exists|active: Seq<bool>|
        {
            &&& answers_of(is_feature_active, active)
            &&& listed is Some <==> core_bpf_buildable(elfs, active, rent)
            &&& listed matches Some(accounts) ==> records_of(accounts@) == core_bpf_records(
                elfs,
                active,
                rent,
            )
        }
}

/// Whether `is_feature_active` reports no feature of the registry as active.
pub open spec fn never_active<F: Fn(&Address) -> bool>(is_feature_active: F) -> bool {
    forall|i: int, answer: bool|
        0 <= i < CORE_BPF_PROGRAM_COUNT && #[trigger] call_ensures(
            is_feature_active,
            (&core_bpf_feature_id(i),),
            answer,
        ) ==> !answer
}

/// Whether `is_feature_active` reports every feature of the registry as active.
pub open spec fn always_active<F: Fn(&Address) -> bool>(is_feature_active: F) -> bool {
    forall|i: int, answer: bool|
        0 <= i < CORE_BPF_PROGRAM_COUNT && #[trigger] call_ensures(
            is_feature_active,
            (&core_bpf_feature_id(i),),
            answer,
        ) ==> answer
}

/// Asks `is_feature_active` about the feature of each Core BPF program, once each and in
/// the order of the registry.
pub fn feature_activations<F: Fn(&Address) -> bool>(is_feature_active: &F) -> (active: [bool; 3])
    requires
        accepts_features(*is_feature_active),
    ensures
        answers_of(*is_feature_active, active@),
{
    let mut active: [bool; 3] = [false; 3];
    let mut i: usize = 0;
    while i < CORE_BPF_PROGRAM_COUNT
        invariant
            i <= CORE_BPF_PROGRAM_COUNT,
            accepts_features(*is_feature_active),
            forall|j: int|
                0 <= j < i ==> call_ensures(
                    *is_feature_active,
                    (&core_bpf_feature_id(j),),
                    #[trigger] active@[j],
                ),
        decreases CORE_BPF_PROGRAM_COUNT - i,
    {
        let (_, feature_id) = core_bpf_program(i);
        let answer: bool = is_feature_active(&feature_id);
        active[i] = answer;
        i += 1;
    }
    active
}

/// Lists the accounts of the Core BPF programs whose features `is_feature_active` reports
/// as active.
///
/// `elfs` holds the code of the programs in the order of the registry. Every program that
/// the predicate may report as active must be buildable.
pub fn core_bpf_programs<F: Fn(&Address) -> bool>(
    rent: &Rent,
    elfs: &[&[u8]; 3],
    is_feature_active: F,
) -> (accounts: Vec<(Address, Account)>)
    requires
        accepts_features(is_feature_active),
        forall|active: Seq<bool>|
            answers_of(is_feature_active, active) ==> core_bpf_buildable(
                images(elfs@),
                active,
                *rent,
            ),
    ensures
        lists_core_bpf_programs(*rent, images(elfs@), is_feature_active, accounts@),
        never_active(is_feature_active) ==> accounts@.len() == 0,
        always_active(is_feature_active) ==> accounts@.len() == 2 * CORE_BPF_PROGRAM_COUNT,
{
    let active = feature_activations(&is_feature_active);
    core_bpf_programs_with(rent, elfs, &active)
}

/// Tells whether the accounts of the Core BPF programs whose features are active can be
/// built.
pub fn can_build_core_bpf_programs(rent: &Rent, elfs: &[&[u8]; 3], active: &[bool; 3]) -> (buildable:
    bool)
    ensures
        buildable == core_bpf_buildable(images(elfs@), active@, *rent),
{
    let mut i: usize = 0;
    while i < CORE_BPF_PROGRAM_COUNT
        invariant
            i <= CORE_BPF_PROGRAM_COUNT,
            forall|j: int|
                0 <= j < i && active@[j] ==> upgradeable_buildable(
                    core_bpf_program_id(j)@,
                    images(elfs@)[j].len() as int,
                    *rent,
                ),
        decreases CORE_BPF_PROGRAM_COUNT - i,
    {
        if active[i] {
            let (program_id, _) = core_bpf_program(i);
            let elf: &[u8] = elfs[i];
            assert(images(elfs@)[i as int] == elf@);
            if !can_build_upgradeable(&program_id, elf.len(), rent) {
                return false;
            }
        }
        i += 1;
    }
    true
}

/// Lists the accounts of the Core BPF programs whose features `is_feature_active` reports
/// as active, if all of them can be built.
pub fn try_core_bpf_programs<F: Fn(&Address) -> bool>(
    rent: &Rent,
    elfs: &[&[u8]; 3],
    is_feature_active: F,
) -> (listed: Option<Vec<(Address, Account)>>)
    requires
        accepts_features(is_feature_active),
    ensures
        lists_core_bpf_programs_if_buildable(*rent, images(elfs@), is_feature_active, listed),
        never_active(is_feature_active) ==> (listed matches Some(accounts) && accounts@.len()
            == 0),
        always_active(is_feature_active) ==> (listed matches Some(accounts) ==> accounts@.len()
            == 2 * CORE_BPF_PROGRAM_COUNT),
{
    let active = feature_activations(&is_feature_active);
    if can_build_core_bpf_programs(rent, elfs, &active) {
        Some(core_bpf_programs_with(rent, elfs, &active))
    } else {
        None
    }
}

/// The first `n` of `parts`, one after the other.
spec fn concat_upto(parts: Seq<Seq<Record>>, n: nat) -> Seq<Record>
    decreases n,
{
    if n == 0 {
        Seq::empty()
    } else {
        concat_upto(parts, (n - 1) as nat) + parts[n - 1]
    }
}

/// Flattening the first `n` parts puts them one after the other.
proof fn lemma_flatten_by_parts(parts: Seq<Seq<Record>>, n: nat)
    requires
        n <= parts.len(),
    ensures
        parts.take(n as int).flatten() == concat_upto(parts, n),
    decreases n,
{
    if n == 0 {
        assert(parts.take(0) =~= Seq::<Seq<Record>>::empty());
    } else {
        lemma_flatten_by_parts(parts, (n - 1) as nat);
        assert(parts.take(n as int) =~= parts.take(n - 1).push(parts[n - 1]));
        parts.take(n - 1).lemma_flatten_push(parts[n - 1]);
    }
}

/// Of the programs that are always there only Token-2022, the second of the registry, is
/// owned by the upgradeable loader; the simple loader owns the other four.
pub proof fn lemma_spl_loaders()
    ensures
        forall|i: int|
            0 <= i < SPL_PROGRAM_COUNT ==> ((#[trigger] spl_loader_id(i))@
                == BPF_LOADER_UPGRADEABLE_ID@ <==> i == 1),
        forall|i: int|
            0 <= i < SPL_PROGRAM_COUNT && i != 1 ==> (#[trigger] spl_loader_id(i))@
                == BPF_LOADER_ID@,
{
    assert(BPF_LOADER_ID@[7] != BPF_LOADER_UPGRADEABLE_ID@[7]);
}

/// Each program of the registry that the simple loader owns contributes exactly one
/// account: it holds the program's code byte for byte, and its balance is the minimum
/// balance for the code's length, or one lamport where that minimum is zero.
pub proof fn lemma_spl_simple_program_records(i: int, elf: Seq<u8>, rent: Rent)
    requires
        0 <= i < SPL_PROGRAM_COUNT,
        spl_loader_id(i)@ != BPF_LOADER_UPGRADEABLE_ID@,
    ensures
        ({
            let records = spl_program_records(i, elf, rent);
            let minimum = minimum_balance(rent, elf.len() as usize);
            &&& records.len() == 1
            &&& records[0].0 == spl_program_id(i)@
            &&& records[0].1.data == elf
            &&& records[0].1.executable
            &&& records[0].1.lamports == if minimum == 0 {
                1
            } else {
                minimum
            }
        }),
{
}

/// The accounts of the programs that are always there, written out: Token, the program
/// account and the program-data account of Token-2022, Memo 1.0, Memo 3.0 and Associated
/// Token Account.
pub proof fn lemma_spl_records(elfs: Seq<Seq<u8>>, rent: Rent)
    ensures
        spl_records(elfs, rent) == seq![bpf_loader_record(spl_program_id(0)@, elfs[0], rent)]
            + bpf_loader_upgradeable_records(spl_program_id(1)@, elfs[1], rent) + seq![
            bpf_loader_record(spl_program_id(2)@, elfs[2], rent),
            bpf_loader_record(spl_program_id(3)@, elfs[3], rent),
            bpf_loader_record(spl_program_id(4)@, elfs[4], rent),
        ],
{
    lemma_spl_loaders();
    let parts = Seq::new(
        SPL_PROGRAM_COUNT as nat,
        |i: int| spl_program_records(i, elfs[i], rent),
    );
    lemma_flatten_by_parts(parts, 5);
    assert(parts.take(5) =~= parts);
    reveal_with_fuel(concat_upto, 6);
    assert(spl_records(elfs, rent) =~= seq![bpf_loader_record(spl_program_id(0)@, elfs[0], rent)]
        + bpf_loader_upgradeable_records(spl_program_id(1)@, elfs[1], rent) + seq![
        bpf_loader_record(spl_program_id(2)@, elfs[2], rent),
        bpf_loader_record(spl_program_id(3)@, elfs[3], rent),
        bpf_loader_record(spl_program_id(4)@, elfs[4], rent),
    ]);
}

/// Where the accounts of the programs that are always there can be built, there is one
/// for each program and one more, the program-data account of Token-2022.
pub proof fn lemma_spl_records_len(elfs: Seq<Seq<u8>>, rent: Rent)
    requires
        spl_buildable(elfs, rent),
    ensures
        spl_records(elfs, rent).len() == SPL_PROGRAM_COUNT + 1,
{
    lemma_spl_loaders();
    lemma_spl_records(elfs, rent);
    assert(spl_program_buildable(1, elfs[1].len() as int, rent));
}

/// The accounts of the Core BPF programs, written out: for each program whose feature is
/// active, in the order Address Lookup Table, Config, Feature Gate, its two accounts.
pub proof fn lemma_core_bpf_records(elfs: Seq<Seq<u8>>, active: Seq<bool>, rent: Rent)
    ensures
        core_bpf_records(elfs, active, rent) == core_bpf_program_records(
            0,
            active[0],
            elfs[0],
            rent,
        ) + core_bpf_program_records(1, active[1], elfs[1], rent) + core_bpf_program_records(
            2,
            active[2],
            elfs[2],
            rent,
        ),
{
    let parts = Seq::new(
        CORE_BPF_PROGRAM_COUNT as nat,
        |i: int| core_bpf_program_records(i, active[i], elfs[i], rent),
    );
    lemma_flatten_by_parts(parts, 3);
    assert(parts.take(3) =~= parts);
    reveal_with_fuel(concat_upto, 4);
    assert(core_bpf_records(elfs, active, rent) =~= core_bpf_program_records(
        0,
        active[0],
        elfs[0],
        rent,
    ) + core_bpf_program_records(1, active[1], elfs[1], rent) + core_bpf_program_records(
        2,
        active[2],
        elfs[2],
        rent,
    ));
}

/// Where no feature is active the list of Core BPF accounts is empty.
pub proof fn lemma_core_bpf_none_active(elfs: Seq<Seq<u8>>, active: Seq<bool>, rent: Rent)
    requires
        none_active(active),
    ensures
        core_bpf_records(elfs, active, rent).len() == 0,
{
    lemma_core_bpf_records(elfs, active, rent);
}

/// Where every feature is active, and the accounts can be built, the list of Core BPF
/// accounts holds two accounts for each program of the registry.
pub proof fn lemma_core_bpf_all_active(elfs: Seq<Seq<u8>>, active: Seq<bool>, rent: Rent)
    requires
        all_active(active),
        core_bpf_buildable(elfs, active, rent),
    ensures
        core_bpf_records(elfs, active, rent).len() == 2 * CORE_BPF_PROGRAM_COUNT,
{
    lemma_core_bpf_records(elfs, active, rent);
    assert(upgradeable_buildable(core_bpf_program_id(0)@, elfs[0].len() as int, rent));
    assert(upgradeable_buildable(core_bpf_program_id(1)@, elfs[1].len() as int, rent));
    assert(upgradeable_buildable(core_bpf_program_id(2)@, elfs[2].len() as int, rent));
}

/// Two lists of the programs that are always there, made from the same code under the
/// same rent, hold the same addresses and the same accounts in the same order.
pub proof fn lemma_spl_programs_deterministic(
    rent: Rent,
    elfs: Seq<Seq<u8>>,
    first: Seq<(Address, Account)>,
    second: Seq<(Address, Account)>,
)
    requires
        records_of(first) == spl_records(elfs, rent),
        records_of(second) == spl_records(elfs, rent),
    ensures
        records_of(first) == records_of(second),
{
}

/// Two lists of the Core BPF programs, made from the same code under the same rent with
/// a predicate that gives one answer for each feature, hold the same addresses and the
/// same accounts in the same order.
pub proof fn lemma_core_bpf_programs_deterministic<F: Fn(&Address) -> bool>(
    rent: Rent,
    elfs: Seq<Seq<u8>>,
    is_feature_active: F,
    first: Seq<(Address, Account)>,
    second: Seq<(Address, Account)>,
)
    requires
        answers_once(is_feature_active),
        lists_core_bpf_programs(rent, elfs, is_feature_active, first),
        lists_core_bpf_programs(rent, elfs, is_feature_active, second),
    ensures
        records_of(first) == records_of(second),
{
    let a = choose|active: Seq<bool>|
        answers_of(is_feature_active, active) && records_of(first) == core_bpf_records(
            elfs,
            active,
            rent,
        );
    let b = choose|active: Seq<bool>|
        answers_of(is_feature_active, active) && records_of(second) == core_bpf_records(
            elfs,
            active,
            rent,
        );
    assert(a =~= b);
}

} // verus!
