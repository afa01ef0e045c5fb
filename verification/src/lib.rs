//! The accounts that seed a ledger with its well-known programs.
//!
//! A program that the simple BPF loader runs is one executable account that holds the
//! code. A program that the upgradeable loader runs is two accounts: an executable program
//! account that points at a program-data account, and the program-data account, which
//! holds a short header followed by the code. [`programs::spl_programs`] lists the accounts
//! of the programs that every ledger holds, and [`programs::core_bpf_programs`] those of
//! the programs that have moved out of the runtime, for the migrations that are active.
pub mod account;
pub mod address;
pub mod builder;
pub mod loader_state;
pub mod program_data;
pub mod programs;
pub mod registry;
pub mod rent;
