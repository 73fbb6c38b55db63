//! Encryption-algorithm identifiers used in VeraCrypt-style headers.

use vstd::prelude::*;

verus! {

pub const AES: u32 = 1;

pub const SERPENT: u32 = 2;

pub const TWOFISH: u32 = 3;

pub const CAMELLIA: u32 = 4;

pub const KUZNYECHIK: u32 = 5;

pub const AES_TWOFISH: u32 = 6;

pub const AES_TWOFISH_SERPENT: u32 = 7;

pub const SERPENT_AES: u32 = 8;

pub const SERPENT_TWOFISH_AES: u32 = 9;

pub const TWOFISH_SERPENT: u32 = 10;

} // verus!
