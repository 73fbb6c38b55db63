//! Secure-erase engine: erase methods, their pass counts, the per-pass
//! overwrite patterns (zero fill, ones fill, fresh random data, and the fixed
//! three-byte motifs of the Gutmann sequence), and the chunked multi-pass
//! overwrite of a device extent.

use vstd::prelude::*;

use crate::rng::generate_random_bytes;

verus! {

/// Bytes written per chunk when streaming a pattern across a device.
pub const ERASE_CHUNK_SIZE: usize = 4 * 1024 * 1024;

/// A multi-pass secure-erase method. Immutable once chosen for a run; it
/// determines the total pass count and the pattern written on each pass.
#[derive(Debug, Clone, Copy, PartialEq, Eq)]
pub enum SecureEraseMethod {
    /// Single pass of zeros.
    Zeros,
    /// Single pass of random data.
    Random,
    /// DoD 5220.22-M standard (3 passes: zeros, ones, random).
    DoD,
    /// Gutmann method (35 passes).
    Gutmann,
    /// Custom number of random passes.
    CustomRandom(u8),
}

impl SecureEraseMethod {
    /// The documented number of full-device passes the method performs.
    pub open spec fn spec_passes(self) -> u8 {
        match self {
            SecureEraseMethod::Zeros => 1,
            SecureEraseMethod::Random => 1,
            SecureEraseMethod::DoD => 3,
            SecureEraseMethod::Gutmann => 35,
            SecureEraseMethod::CustomRandom(n) => n,
        }
    }

    pub fn passes(&self) -> (n: u8)
        ensures
            n == self.spec_passes(),
    {
        match self {
            SecureEraseMethod::Zeros => 1,
            SecureEraseMethod::Random => 1,
            SecureEraseMethod::DoD => 3,
            SecureEraseMethod::Gutmann => 35,
            SecureEraseMethod::CustomRandom(n) => *n,
        }
    }

    /// Human-readable name of the method.
    pub open spec fn spec_name(self) -> Seq<char> {
        match self {
            SecureEraseMethod::Zeros => "Zero Fill"@,
            SecureEraseMethod::Random => "Random Data"@,
            SecureEraseMethod::DoD => "DoD 5220.22-M"@,
            SecureEraseMethod::Gutmann => "Gutmann (35-pass)"@,
            SecureEraseMethod::CustomRandom(_) => "Custom Random"@,
        }
    }

    pub fn name(&self) -> (r: &'static str)
        ensures
            r@ == self.spec_name(),
    {
        match self {
            SecureEraseMethod::Zeros => "Zero Fill",
            SecureEraseMethod::Random => "Random Data",
            SecureEraseMethod::DoD => "DoD 5220.22-M",
            SecureEraseMethod::Gutmann => "Gutmann (35-pass)",
            SecureEraseMethod::CustomRandom(_) => "Custom Random",
        }
    }
}

/// The byte pattern written during one pass.
#[derive(Debug, Clone, Copy, PartialEq, Eq)]
pub enum PatternType {
    /// Every byte zero.
    Zeros,
    /// Every byte 0xFF.
    Ones,
    /// Fresh random bytes, redrawn for every chunk.
    Random,
    /// A fixed three-byte motif, repeated across the whole extent.
    Fixed([u8; 3]),
}

/// Whether the bytes a pattern writes are a function of the position alone
/// (random passes are not).
pub open spec fn is_deterministic(pattern: PatternType) -> bool {
    !(pattern is Random)
}

/// The byte a deterministic pattern writes at absolute device offset `pos`.
pub open spec fn pattern_byte(pattern: PatternType, pos: int) -> u8 {
    match pattern {
        PatternType::Zeros => 0,
        PatternType::Ones => 0xFF,
        PatternType::Random => 0,
        PatternType::Fixed(m) => m@[pos % 3],
    }
}

/// The Gutmann-method pattern for a pass index: passes 0-3 and 31-34 are
/// random, passes 4-30 are the fixed sequence of complementary and rotating
/// three-byte motifs; indexes past the table fall back to random.
pub open spec fn spec_gutmann_pattern(pass: int) -> PatternType {
    if 0 <= pass <= 3 {
        PatternType::Random
    } else if pass == 4 || pass == 14 {
        PatternType::Fixed([0x55, 0x55, 0x55])
    } else if pass == 5 || pass == 19 {
        PatternType::Fixed([0xAA, 0xAA, 0xAA])
    } else if pass == 6 || pass == 25 {
        PatternType::Fixed([0x92, 0x49, 0x24])
    } else if pass == 7 || pass == 26 {
        PatternType::Fixed([0x49, 0x24, 0x92])
    } else if pass == 8 || pass == 27 {
        PatternType::Fixed([0x24, 0x92, 0x49])
    } else if pass == 9 {
        PatternType::Fixed([0x00, 0x00, 0x00])
    } else if pass == 10 {
        PatternType::Fixed([0x11, 0x11, 0x11])
    } else if pass == 11 {
        PatternType::Fixed([0x22, 0x22, 0x22])
    } else if pass == 12 {
        PatternType::Fixed([0x33, 0x33, 0x33])
    } else if pass == 13 {
        PatternType::Fixed([0x44, 0x44, 0x44])
    } else if pass == 15 {
        PatternType::Fixed([0x66, 0x66, 0x66])
    } else if pass == 16 {
        PatternType::Fixed([0x77, 0x77, 0x77])
    } else if pass == 17 {
        PatternType::Fixed([0x88, 0x88, 0x88])
    } else if pass == 18 {
        PatternType::Fixed([0x99, 0x99, 0x99])
    } else if pass == 20 {
        PatternType::Fixed([0xBB, 0xBB, 0xBB])
    } else if pass == 21 {
        PatternType::Fixed([0xCC, 0xCC, 0xCC])
    } else if pass == 22 {
        PatternType::Fixed([0xDD, 0xDD, 0xDD])
    } else if pass == 23 {
        PatternType::Fixed([0xEE, 0xEE, 0xEE])
    } else if pass == 24 {
        PatternType::Fixed([0xFF, 0xFF, 0xFF])
    } else if pass == 28 {
        PatternType::Fixed([0x6D, 0xB6, 0xDB])
    } else if pass == 29 {
        PatternType::Fixed([0xB6, 0xDB, 0x6D])
    } else if pass == 30 {
        PatternType::Fixed([0xDB, 0x6D, 0xB6])
    } else {
        PatternType::Random
    }
}

/// Gutmann-method pattern lookup.
pub fn get_gutmann_pattern(pass: u8) -> (r: PatternType)
    ensures
        r == spec_gutmann_pattern(pass as int),
{
    match pass {
        0..=3 => PatternType::Random,
        4 => PatternType::Fixed([0x55, 0x55, 0x55]),
        5 => PatternType::Fixed([0xAA, 0xAA, 0xAA]),
        6 => PatternType::Fixed([0x92, 0x49, 0x24]),
        7 => PatternType::Fixed([0x49, 0x24, 0x92]),
        8 => PatternType::Fixed([0x24, 0x92, 0x49]),
        9 => PatternType::Fixed([0x00, 0x00, 0x00]),
        10 => PatternType::Fixed([0x11, 0x11, 0x11]),
        11 => PatternType::Fixed([0x22, 0x22, 0x22]),
        12 => PatternType::Fixed([0x33, 0x33, 0x33]),
        13 => PatternType::Fixed([0x44, 0x44, 0x44]),
        14 => PatternType::Fixed([0x55, 0x55, 0x55]),
        15 => PatternType::Fixed([0x66, 0x66, 0x66]),
        16 => PatternType::Fixed([0x77, 0x77, 0x77]),
        17 => PatternType::Fixed([0x88, 0x88, 0x88]),
        18 => PatternType::Fixed([0x99, 0x99, 0x99]),
        19 => PatternType::Fixed([0xAA, 0xAA, 0xAA]),
        20 => PatternType::Fixed([0xBB, 0xBB, 0xBB]),
        21 => PatternType::Fixed([0xCC, 0xCC, 0xCC]),
        22 => PatternType::Fixed([0xDD, 0xDD, 0xDD]),
        23 => PatternType::Fixed([0xEE, 0xEE, 0xEE]),
        24 => PatternType::Fixed([0xFF, 0xFF, 0xFF]),
        25 => PatternType::Fixed([0x92, 0x49, 0x24]),
        26 => PatternType::Fixed([0x49, 0x24, 0x92]),
        27 => PatternType::Fixed([0x24, 0x92, 0x49]),
        28 => PatternType::Fixed([0x6D, 0xB6, 0xDB]),
        29 => PatternType::Fixed([0xB6, 0xDB, 0x6D]),
        30 => PatternType::Fixed([0xDB, 0x6D, 0xB6]),
        31..=34 => PatternType::Random,
        _ => PatternType::Random,
    }
}

/// The Gutmann lookup is total, random exactly on the leading four and
/// trailing four passes of the 35-pass table, and a fixed three-byte motif on
/// every pass in between.
pub proof fn lemma_gutmann_pattern_total(pass: int)
    requires
        0 <= pass < 35,
    ensures
        (pass <= 3 || pass >= 31) <==> spec_gutmann_pattern(pass) is Random,
        4 <= pass <= 30 <==> spec_gutmann_pattern(pass) is Fixed,
{
}

/// The pattern the method writes on a given pass (`pass` counts from zero).
pub open spec fn spec_pass_pattern(method: SecureEraseMethod, pass: int) -> PatternType {
    match method {
        SecureEraseMethod::Zeros => PatternType::Zeros,
        SecureEraseMethod::Random => PatternType::Random,
        SecureEraseMethod::DoD => if pass == 0 {
            PatternType::Zeros
        } else if pass == 1 {
            PatternType::Ones
        } else {
            PatternType::Random
        },
        SecureEraseMethod::Gutmann => spec_gutmann_pattern(pass),
        SecureEraseMethod::CustomRandom(_) => PatternType::Random,
    }
}

/// Pattern for one pass of a method.
pub fn pass_pattern(method: SecureEraseMethod, pass: u8) -> (r: PatternType)
    ensures
        r == spec_pass_pattern(method, pass as int),
{
    match method {
        SecureEraseMethod::Zeros => PatternType::Zeros,
        SecureEraseMethod::Random => PatternType::Random,
        SecureEraseMethod::DoD => {
            if pass == 0 {
                PatternType::Zeros
            } else if pass == 1 {
                PatternType::Ones
            } else {
                PatternType::Random
            }
        },
        SecureEraseMethod::Gutmann => get_gutmann_pattern(pass),
        SecureEraseMethod::CustomRandom(_) => PatternType::Random,
    }
}

fn pattern_byte_at(pattern: PatternType, pos: u64) -> (r: u8)
    requires
        is_deterministic(pattern),
    ensures
        r == pattern_byte(pattern, pos as int),
{
    match pattern {
        PatternType::Zeros => 0,
        PatternType::Ones => 0xFF,
        PatternType::Random => 0,
        PatternType::Fixed(m) => m[(pos % 3) as usize],
    }
}

/// One chunk of pattern bytes, for the extent positions starting at `offset`.
/// Random chunks are freshly drawn on every call, so no periodicity appears
/// across a pass.
pub fn fill_chunk(pattern: PatternType, offset: u64, len: usize) -> (buf: Vec<u8>)
    requires
        offset + len <= u64::MAX,
    ensures
        buf@.len() == len,
        is_deterministic(pattern) ==> forall|k: int|
            0 <= k < len ==> buf@[k] == pattern_byte(pattern, offset + k),
{
    match pattern {
        PatternType::Random => generate_random_bytes(len),
        _ => {
            let mut buf: Vec<u8> = Vec::new();
            let mut k: usize = 0;
            while k < len
                invariant
                    0 <= k <= len,
                    offset + len <= u64::MAX,
                    is_deterministic(pattern),
                    buf@.len() == k,
                    forall|j: int| 0 <= j < k ==> buf@[j] == pattern_byte(pattern, offset + j),
                decreases len - k,
            {
                buf.push(pattern_byte_at(pattern, offset + (k as u64)));
                k = k + 1;
            }
            buf
        },
    }
}

/// Stream one pattern across the whole extent, chunk by chunk.
pub fn write_pass(extent: &mut Vec<u8>, pattern: PatternType)
    ensures
        final(extent)@.len() == old(extent)@.len(),
        is_deterministic(pattern) ==> forall|j: int|
            0 <= j < final(extent)@.len() ==> final(extent)@[j] == pattern_byte(pattern, j),
{
    let total = extent.len();
    let mut offset: usize = 0;
    while offset < total
        invariant
            0 <= offset <= total,
            extent@.len() == total,
            is_deterministic(pattern) ==> forall|j: int|
                0 <= j < offset ==> extent@[j] == pattern_byte(pattern, j),
        decreases total - offset,
    {
        let chunk = if total - offset < ERASE_CHUNK_SIZE {
            total - offset
        } else {
            ERASE_CHUNK_SIZE
        };
        let buf = fill_chunk(pattern, offset as u64, chunk);
        let mut k: usize = 0;
        while k < chunk
            invariant
                0 <= k <= chunk,
                offset + chunk <= total,
                extent@.len() == total,
                buf@.len() == chunk,
                is_deterministic(pattern) ==> forall|j: int|
                    0 <= j < chunk ==> buf@[j] == pattern_byte(pattern, offset + j),
                is_deterministic(pattern) ==> forall|j: int|
                    0 <= j < offset + k ==> extent@[j] == pattern_byte(pattern, j),
            decreases chunk - k,
        {
            extent[offset + k] = buf[k];
            k = k + 1;
        }
        offset = offset + chunk;
    }
}

/// Perform a full multi-pass secure erase of an in-memory device extent:
/// one complete sweep per pass, re-starting at offset zero for each pass.
/// Returns the number of passes performed. After a method whose final pass is
/// deterministic, the extent holds exactly that pass's pattern.
pub fn erase_extent(extent: &mut Vec<u8>, method: SecureEraseMethod) -> (passes_done: u8)
    ensures
        passes_done == method.spec_passes(),
        final(extent)@.len() == old(extent)@.len(),
        (method.spec_passes() > 0 && is_deterministic(
            spec_pass_pattern(method, method.spec_passes() - 1),
        )) ==> forall|j: int|
            0 <= j < final(extent)@.len() ==> final(extent)@[j] == pattern_byte(
                spec_pass_pattern(method, method.spec_passes() - 1),
                j,
            ),
{
    let total_passes = method.passes();
    let mut pass: u8 = 0;
    while pass < total_passes
        invariant
            0 <= pass <= total_passes,
            total_passes == method.spec_passes(),
            extent@.len() == old(extent)@.len(),
            (pass > 0 && is_deterministic(spec_pass_pattern(method, pass - 1))) ==> forall|j: int|
                0 <= j < extent@.len() ==> extent@[j] == pattern_byte(
                    spec_pass_pattern(method, pass - 1),
                    j,
                ),
        decreases total_passes - pass,
    {
        let pattern = pass_pattern(method, pass);
        write_pass(extent, pattern);
        pass = pass + 1;
    }
    total_passes
}

/// The index, in whole mebibytes, of the last full mebibyte of a device of
/// `size` bytes: where a quick wipe zeroes the backup partition table.
pub fn backup_table_seek_mib(size: u64) -> (r: u64)
    requires
        size >= 1024 * 1024,
    ensures
        r as int == size as int / 1048576int - 1,
{
    size / (1024 * 1024) - 1
}

/// Which erase method a configuration string selects; unrecognized names fall
/// back to a single zero-fill pass.
pub open spec fn spec_parse_erase_method(name: Seq<char>) -> SecureEraseMethod {
    if name == "zeros"@ {
        SecureEraseMethod::Zeros
    } else if name == "random"@ {
        SecureEraseMethod::Random
    } else if name == "dod"@ {
        SecureEraseMethod::DoD
    } else if name == "gutmann"@ {
        SecureEraseMethod::Gutmann
    } else {
        SecureEraseMethod::Zeros
    }
}

/// Resolve an erase-method configuration string.
pub fn parse_erase_method(name: &String) -> (r: SecureEraseMethod)
    ensures
        r == spec_parse_erase_method(name@),
{
    if *name == String::from_str("zeros") {
        SecureEraseMethod::Zeros
    } else if *name == String::from_str("random") {
        SecureEraseMethod::Random
    } else if *name == String::from_str("dod") {
        SecureEraseMethod::DoD
    } else if *name == String::from_str("gutmann") {
        SecureEraseMethod::Gutmann
    } else {
        SecureEraseMethod::Zeros
    }
}

} // verus!
