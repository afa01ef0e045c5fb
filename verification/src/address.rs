//! Thirty-two byte addresses and the well-known addresses of the genesis programs.
use vstd::prelude::*;
use vstd::std_specs::cmp::PartialEqSpecImpl;

verus! {

/// The address of an account or a program: thirty-two bytes, compared byte by byte.
///
/// Its view is the sequence of its bytes, which always has length 32.
#[derive(Clone, Copy, Debug, Eq)]
pub struct Address {
    pub bytes: [u8; 32],
}

impl View for Address {
    type V = Seq<u8>;

    open spec fn view(&self) -> Seq<u8> {
        self.bytes@
    }
}

impl Address {
    /// The address made of the given bytes.
    pub fn new(bytes: [u8; 32]) -> (address: Address)
        ensures
            address.bytes == bytes,
            address@ == bytes@,
    {
        Address { bytes }
    }

    /// The bytes of the address.
    pub fn to_bytes(&self) -> (bytes: [u8; 32])
        ensures
            bytes == self.bytes,
            bytes@ == self@,
    {
        self.bytes
    }

    /// Two addresses with the same bytes are the same address.
    pub proof fn lemma_view_injective(a: Address, b: Address)
        requires
            a@ == b@,
        ensures
            a == b,
    {
        assert(a.bytes =~= b.bytes);
    }
}

impl Default for Address {
    /// The address whose bytes are all zero.
    fn default() -> (address: Address)
        ensures
            address@ == zero_address(),
    {
        let address = Address { bytes: [0u8; 32] };
        assert(address@ =~= zero_address());
        address
    }
}

/// The bytes of the all-zero address.
pub open spec fn zero_address() -> Seq<u8> {
    Seq::new(32, |i: int| 0u8)
}

impl PartialEq for Address {
    fn eq(&self, other: &Address) -> (equal: bool) {
        let mut i: usize = 0;
        while i < 32
            invariant
                i <= 32,
                forall|j: int| 0 <= j < i ==> self.bytes[j] == other.bytes[j],
            decreases 32 - i,
        {
            if self.bytes[i] != other.bytes[i] {
                return false;
            }
            i += 1;
        }
        proof {
            assert(self.bytes =~= other.bytes);
        }
        true
    }
}

impl PartialEqSpecImpl for Address {
    open spec fn obeys_eq_spec() -> bool {
        true
    }

    open spec fn eq_spec(&self, other: &Address) -> bool {
        self@ == other@
    }
}

/// The SPL Token program.
///
/// In base 58: `TokenkegQfeZyiNwAJbNbGKPFXCWuBvf9Ss623VQ5DA`.
pub const SPL_TOKEN_ID: [u8; 32] = [
    6, 221, 246, 225, 215, 101, 161, 147, 217, 203, 225, 70, 206, 235, 121, 172,
    28, 180, 133, 237, 95, 91, 55, 145, 58, 140, 245, 133, 126, 255, 0, 169,
];

/// The SPL Token-2022 program.
///
/// In base 58: `TokenzQdBNbLqP5VEhdkAS6EPFLC1PHnBqCXEpPxuEb`.
pub const SPL_TOKEN_2022_ID: [u8; 32] = [
    6, 221, 246, 225, 238, 117, 143, 222, 24, 66, 93, 188, 228, 108, 205, 218,
    182, 26, 252, 77, 131, 185, 13, 39, 254, 189, 249, 40, 216, 161, 139, 252,
];

/// The SPL Memo program, version 1.0.
///
/// In base 58: `Memo1UhkJRfHyvLMcVucJwxXeuD728EqVDDwQDxFMNo`.
pub const SPL_MEMO_1_0_ID: [u8; 32] = [
    5, 74, 83, 80, 248, 93, 200, 130, 214, 20, 165, 86, 114, 120, 138, 41,
    109, 223, 30, 171, 171, 208, 166, 6, 120, 136, 73, 50, 244, 238, 246, 160,
];

/// The SPL Memo program, version 3.0.
///
/// In base 58: `MemoSq4gqABAXKb96qnH8TysNcWxMyWCqXgDLGmfcHr`.
pub const SPL_MEMO_3_0_ID: [u8; 32] = [
    5, 74, 83, 90, 153, 41, 33, 6, 77, 36, 232, 113, 96, 218, 56, 124,
    124, 53, 181, 221, 188, 146, 187, 129, 228, 31, 168, 64, 65, 5, 68, 141,
];

/// The SPL Associated Token Account program.
///
/// In base 58: `ATokenGPvbdGVxr1b2hvZbsiqW5xWH25efTNsLJA8knL`.
pub const SPL_ASSOCIATED_TOKEN_ACCOUNT_ID: [u8; 32] = [
    140, 151, 37, 143, 78, 36, 137, 241, 187, 61, 16, 41, 20, 142, 13, 131,
    11, 90, 19, 153, 218, 255, 16, 132, 4, 142, 123, 216, 219, 233, 248, 89,
];

/// The BPF loader, which runs the bytes held in the program account itself.
///
/// In base 58: `BPFLoader2111111111111111111111111111111111`.
pub const BPF_LOADER_ID: [u8; 32] = [
    2, 168, 246, 145, 78, 136, 161, 110, 57, 90, 225, 40, 148, 143, 250, 105,
    86, 147, 55, 104, 24, 221, 71, 67, 82, 33, 243, 198, 0, 0, 0, 0,
];

/// The upgradeable BPF loader, which runs the bytes held in a separate program-data account.
///
/// In base 58: `BPFLoaderUpgradeab1e11111111111111111111111`.
pub const BPF_LOADER_UPGRADEABLE_ID: [u8; 32] = [
    2, 168, 246, 145, 78, 136, 161, 176, 226, 16, 21, 62, 247, 99, 174, 43,
    0, 194, 185, 61, 22, 193, 36, 210, 192, 83, 122, 16, 4, 128, 0, 0,
];

/// The Address Lookup Table program.
///
/// In base 58: `AddressLookupTab1e1111111111111111111111111`.
pub const ADDRESS_LOOKUP_TABLE_ID: [u8; 32] = [
    2, 119, 166, 175, 151, 51, 155, 122, 200, 141, 24, 146, 201, 4, 70, 245,
    0, 2, 48, 146, 102, 246, 46, 83, 193, 24, 36, 73, 130, 0, 0, 0,
];

/// The Config program.
///
/// In base 58: `Config1111111111111111111111111111111111111`.
pub const CONFIG_ID: [u8; 32] = [
    3, 6, 74, 163, 0, 47, 116, 220, 200, 110, 67, 49, 15, 12, 5, 42,
    248, 197, 218, 39, 246, 16, 64, 25, 163, 35, 239, 160, 0, 0, 0, 0,
];

/// The Feature Gate program.
///
/// In base 58: `Feature111111111111111111111111111111111111`.
pub const FEATURE_GATE_ID: [u8; 32] = [
    3, 192, 160, 205, 203, 6, 210, 218, 239, 174, 130, 209, 111, 238, 122, 207,
    97, 236, 115, 123, 35, 72, 27, 33, 148, 106, 118, 112, 0, 0, 0, 0,
];

/// The feature that moves the Address Lookup Table program to Core BPF.
///
/// In base 58: `C97eKZygrkU4JxJsZdjgbUY7iQR7rKTr4NyDWo2E5pRm`.
pub const MIGRATE_ADDRESS_LOOKUP_TABLE_FEATURE_ID: [u8; 32] = [
    165, 132, 182, 229, 75, 168, 52, 36, 148, 187, 163, 93, 67, 0, 25, 34,
    126, 17, 30, 182, 186, 201, 149, 119, 249, 225, 131, 165, 70, 93, 255, 72,
];

/// The feature that moves the Config program to Core BPF.
///
/// In base 58: `2Fr57nzzkLYXW695UdDxDeR5fhnZWSttZeZYemrnpGFV`.
pub const MIGRATE_CONFIG_FEATURE_ID: [u8; 32] = [
    18, 169, 77, 144, 241, 13, 169, 169, 108, 77, 175, 249, 59, 142, 245, 203,
    35, 239, 164, 169, 39, 238, 92, 89, 196, 239, 156, 8, 69, 101, 223, 172,
];

/// The feature that moves the Feature Gate program to Core BPF.
///
/// In base 58: `4eohviozzEeivk1y9UbrnekbAFMDQyJz5JjA9Y6gyvky`.
pub const MIGRATE_FEATURE_GATE_FEATURE_ID: [u8; 32] = [
    54, 66, 92, 102, 24, 31, 107, 244, 234, 52, 24, 152, 208, 238, 87, 142,
    68, 211, 105, 182, 6, 30, 228, 234, 55, 134, 8, 180, 25, 191, 187, 122,
];

} // verus!
