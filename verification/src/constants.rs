//! Fixed on-chain addresses of the trading program and of the programs its
//! instructions reference. Each is the 32-byte form of a well-known base58
//! address; a submitted transaction is accepted only if these match the
//! deployed programs exactly.

use vstd::prelude::*;

verus! {

/// The bonding-curve trading program.
pub const PUMPFUN_PROGRAM_ID: [u8; 32] = [1, 86, 224, 246, 147, 102, 90, 207, 68, 219, 21, 104, 191, 23, 91, 170, 81, 137, 203, 151, 245, 210, 255, 59, 101, 93, 43, 182, 253, 109, 24, 176];

/// The trading program's global configuration account.
pub const PUMPFUN_GLOBAL: [u8; 32] = [58, 134, 94, 105, 238, 15, 84, 128, 202, 188, 246, 99, 87, 228, 220, 47, 24, 213, 141, 69, 193, 234, 116, 137, 251, 55, 35, 217, 121, 60, 114, 166];

/// The trading program's fee recipient account.
pub const PUMPFUN_FEE_RECIPIENT: [u8; 32] = [173, 17, 230, 164, 252, 41, 68, 164, 250, 130, 81, 190, 248, 21, 66, 110, 27, 251, 40, 198, 182, 100, 102, 119, 96, 124, 106, 217, 245, 102, 166, 70];

/// The trading program's event authority account.
pub const EVENT_AUTHORITY: [u8; 32] = [172, 241, 54, 235, 1, 252, 28, 78, 136, 61, 35, 200, 181, 132, 74, 181, 154, 55, 246, 106, 221, 87, 197, 233, 172, 59, 83, 224, 89, 211, 92, 100];

/// The token program.
pub const TOKEN_PROGRAM_ID: [u8; 32] = [6, 221, 246, 225, 215, 101, 161, 147, 217, 203, 225, 70, 206, 235, 121, 172, 28, 180, 133, 237, 95, 91, 55, 145, 58, 140, 245, 133, 126, 255, 0, 169];

/// The associated-token-account program.
pub const ASSOC_TOKEN_ACC_PROGRAM_ID: [u8; 32] = [140, 151, 37, 143, 78, 36, 137, 241, 187, 61, 16, 41, 20, 142, 13, 131, 11, 90, 19, 153, 218, 255, 16, 132, 4, 142, 123, 216, 219, 233, 248, 89];

/// The rent sysvar account.
pub const SYSTEM_RENT_PROGRAM_ID: [u8; 32] = [6, 167, 213, 23, 25, 44, 92, 81, 33, 140, 201, 76, 61, 74, 241, 127, 88, 218, 238, 8, 155, 161, 253, 68, 227, 219, 217, 138, 0, 0, 0, 0];

/// The system program.
pub const SYSTEM_PROGRAM_ID: [u8; 32] = [0, 0, 0, 0, 0, 0, 0, 0, 0, 0, 0, 0, 0, 0, 0, 0, 0, 0, 0, 0, 0, 0, 0, 0, 0, 0, 0, 0, 0, 0, 0, 0];

/// The compute-budget program.
pub const COMPUTE_BUDGET_PROGRAM_ID: [u8; 32] = [3, 6, 70, 111, 229, 33, 23, 50, 255, 236, 173, 186, 114, 195, 155, 231, 188, 140, 229, 187, 197, 247, 18, 107, 44, 67, 155, 58, 64, 0, 0, 0];

} // verus!
