//! Hash-algorithm identifiers used in VeraCrypt-style headers.

use vstd::prelude::*;

verus! {

pub const SHA512: u32 = 1;

pub const WHIRLPOOL: u32 = 2;

pub const SHA256: u32 = 3;

pub const BLAKE2S: u32 = 4;

pub const STREEBOG: u32 = 5;

} // verus!
