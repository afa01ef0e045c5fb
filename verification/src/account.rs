//! The record that the ledger keeps for an account.
use crate::address::Address;
use vstd::prelude::*;

verus! {

/// An account as the ledger stores it.
#[derive(Clone, Debug, PartialEq, Eq)]
pub struct Account {
    /// The balance, in lamports.
    pub lamports: u64,
    /// The data that the account holds.
    pub data: Vec<u8>,
    /// The program that owns the account; for an executable account, its loader.
    pub owner: Address,
    /// Whether the virtual machine can invoke the account.
    pub executable: bool,
    /// The epoch at which the account next owes rent.
    pub rent_epoch: u64,
}

/// What an [`Account`] holds, with its data and its owner as sequences of bytes.
pub struct AccountView {
    pub lamports: u64,
    pub data: Seq<u8>,
    pub owner: Seq<u8>,
    pub executable: bool,
    pub rent_epoch: u64,
}

impl View for Account {
    type V = AccountView;

    open spec fn view(&self) -> AccountView {
        AccountView {
            lamports: self.lamports,
            data: self.data@,
            owner: self.owner@,
            executable: self.executable,
            rent_epoch: self.rent_epoch,
        }
    }
}

/// An address together with what the account at that address holds.
pub type Record = (Seq<u8>, AccountView);

/// The view of one address and its account.
pub open spec fn record_of(entry: (Address, Account)) -> Record {
    (entry.0@, entry.1@)
}

/// The views of a list of addresses and their accounts, in the order of the list.
pub open spec fn records_of(entries: Seq<(Address, Account)>) -> Seq<Record> {
    entries.map_values(|entry: (Address, Account)| record_of(entry))
}

} // verus!
