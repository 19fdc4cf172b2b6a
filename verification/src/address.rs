//! Addresses, hashes and signatures, and the well-known addresses that the
//! ledger treats specially.

use vstd::prelude::*;

verus! {

/// A 32-byte account or program identifier.
pub type Address = [u8; 32];

/// A 32-byte block hash.
pub type Blockhash = [u8; 32];

/// A 64-byte transaction signature.
pub type Signature = [u8; 64];

/// The system program, which is also the owner of an account that was never
/// assigned: thirty-two zero bytes.
pub const SYSTEM_PROGRAM_ID: Address = [
    0, 0, 0, 0, 0, 0, 0, 0, 0, 0, 0, 0, 0, 0, 0, 0,
    0, 0, 0, 0, 0, 0, 0, 0, 0, 0, 0, 0, 0, 0, 0, 0,
];

/// Owner of every built-in program: the end of each loader chain
/// (`NativeLoader1111111111111111111111111111111`).
pub const NATIVE_LOADER_ID: Address = [
    5, 135, 132, 191, 20, 139, 164, 40, 47, 176, 18, 87, 72, 136, 169, 241,
    83, 160, 125, 173, 247, 101, 192, 69, 92, 154, 151, 3, 128, 0, 0, 0,
];

/// The generic program loader (`BPFLoader2111111111111111111111111111111111`).
pub const BPF_LOADER_ID: Address = [
    2, 168, 246, 145, 78, 136, 161, 110, 57, 90, 225, 40, 148, 143, 250, 105,
    86, 147, 55, 104, 24, 221, 71, 67, 82, 33, 243, 198, 0, 0, 0, 0,
];

/// The upgradeable loader, whose programs keep their code in a companion
/// account (`BPFLoaderUpgradeab1e11111111111111111111111`).
pub const BPF_LOADER_UPGRADEABLE_ID: Address = [
    2, 168, 246, 145, 78, 136, 161, 176, 226, 16, 21, 62, 247, 99, 174, 43,
    0, 194, 185, 61, 22, 193, 36, 210, 192, 83, 122, 16, 4, 128, 0, 0,
];

/// Owner of the system-variable accounts
/// (`Sysvar1111111111111111111111111111111111111`).
pub const SYSVAR_OWNER_ID: Address = [
    6, 167, 213, 23, 24, 117, 247, 41, 199, 61, 147, 64, 143, 33, 97, 32,
    6, 126, 216, 140, 118, 224, 140, 40, 127, 193, 148, 96, 0, 0, 0, 0,
];

/// The clock system variable (`SysvarC1ock11111111111111111111111111111111`).
pub const CLOCK_SYSVAR_ID: Address = [
    6, 167, 213, 23, 24, 199, 116, 201, 40, 86, 99, 152, 105, 29, 94, 182,
    139, 94, 184, 163, 155, 75, 109, 92, 115, 85, 91, 33, 0, 0, 0, 0,
];

/// The rent system variable (`SysvarRent111111111111111111111111111111111`).
pub const RENT_SYSVAR_ID: Address = [
    6, 167, 213, 23, 25, 44, 92, 81, 33, 140, 201, 76, 61, 74, 241, 127,
    88, 218, 238, 8, 155, 161, 253, 68, 227, 219, 217, 138, 0, 0, 0, 0,
];

/// The instructions-introspection system variable
/// (`Sysvar1nstructions1111111111111111111111111`).
pub const INSTRUCTIONS_SYSVAR_ID: Address = [
    6, 167, 213, 23, 24, 123, 209, 102, 53, 218, 212, 4, 85, 253, 194, 192,
    193, 36, 198, 143, 33, 86, 117, 165, 219, 186, 203, 95, 8, 0, 0, 0,
];

/// The secp256k1 signature-verification precompile
/// (`KeccakSecp256k11111111111111111111111111111`).
pub const SECP256K1_PROGRAM_ID: Address = [
    4, 198, 252, 32, 240, 80, 204, 240, 85, 132, 215, 33, 28, 159, 140, 245,
    158, 193, 71, 133, 187, 22, 106, 30, 40, 48, 232, 18, 32, 0, 0, 0,
];

/// The ed25519 signature-verification precompile
/// (`Ed25519SigVerify111111111111111111111111111`).
pub const ED25519_PROGRAM_ID: Address = [
    3, 125, 70, 214, 124, 147, 251, 190, 18, 249, 66, 143, 131, 141, 64, 255,
    5, 112, 116, 73, 39, 244, 138, 100, 252, 202, 112, 68, 128, 0, 0, 0,
];

/// Whether two addresses hold the same bytes.
pub fn same_address(a: &Address, b: &Address) -> (r: bool)
    ensures
        r == (*a == *b),
{
    let mut i: usize = 0;
    while i < 32
        invariant
            i <= 32,
            forall|j: int| 0 <= j < i ==> a@[j] == b@[j],
        decreases 32 - i,
    {
        if a[i] != b[i] {
            return false;
        }
        i += 1;
    }
    assert(*a =~= *b);
    true
}

/// Whether two signatures hold the same bytes.
pub fn same_signature(a: &Signature, b: &Signature) -> (r: bool)
    ensures
        r == (*a == *b),
{
    let mut i: usize = 0;
    while i < 64
        invariant
            i <= 64,
            forall|j: int| 0 <= j < i ==> a@[j] == b@[j],
        decreases 64 - i,
    {
        if a[i] != b[i] {
            return false;
        }
        i += 1;
    }
    assert(*a =~= *b);
    true
}

} // verus!
