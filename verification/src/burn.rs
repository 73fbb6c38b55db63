//! Burn orchestrator: sequences erase, write, encryption setup, bootloader
//! configuration and verification as one cancellable pipeline over a device
//! extent, with mutual exclusion and live progress accounting.

use vstd::prelude::*;

use crate::errors::ErrorKind;
use crate::hashing::{hex_bytes, sha256_of, HashResult};
use crate::secure_erase::{erase_extent, parse_erase_method, spec_parse_erase_method};
use crate::state::{OperationState, Stage};
use crate::text::string_bytes;

verus! {

/// Bytes copied per chunk when streaming the image onto the device; the
/// cancellation flag is honored between chunks, so this also bounds the
/// cancellation latency.
pub const COPY_CHUNK_SIZE: usize = 4 * 1024 * 1024;

/// Encryption options of a burn run.
#[derive(Debug, Clone)]
pub struct EncryptionSettings {
    pub enabled: bool,
    pub encryption_type: String,
    pub password: String,
    pub cipher: String,
    pub key_size: u32,
    pub hash_algo: String,
    pub iterations: u32,
    pub wipe_header_on_error: bool,
}

/// Bootloader options of a burn run.
#[derive(Debug, Clone)]
pub struct BootloaderConfig {
    pub mode: String,
    pub secure_boot: bool,
    pub persistent_storage: bool,
    pub persistent_size_mb: u32,
}

/// The declarative input to one orchestrator run; immutable for the run's
/// duration.
#[derive(Debug, Clone)]
pub struct BurnConfig {
    pub image_path: String,
    pub target_drive: String,
    pub verify_after_write: bool,
    pub secure_erase_before: bool,
    pub erase_method: String,
    pub encryption: Option<EncryptionSettings>,
    pub bootloader: BootloaderConfig,
}

/// The outcome of one orchestrator run.
#[derive(Debug, Clone)]
pub struct BurnResult {
    pub success: bool,
    pub message: String,
    pub hash_verification: Option<HashResult>,
    pub duration_seconds: u64,
    pub bytes_written: u64,
}

/// The cipher name handed to the external LUKS formatting tool: one of the
/// three recognized XTS ciphers, or the AES default for anything else.
pub open spec fn spec_normalize_cipher(cipher: Seq<char>) -> Seq<char> {
    if cipher == "aes-xts-plain64"@ || cipher == "serpent-xts-plain64"@ || cipher
        == "twofish-xts-plain64"@ {
        cipher
    } else {
        "aes-xts-plain64"@
    }
}

/// The iteration time, in milliseconds, handed to the external LUKS
/// formatting tool: iterations/1000, at least 1.
pub open spec fn spec_iter_time_ms(iterations: u32) -> u32 {
    if iterations / 1000 > 1 {
        (iterations / 1000) as u32
    } else {
        1
    }
}

/// What the external LUKS formatting tool is to be invoked with. Building the
/// invocation is this engine's decision; running the tool is the embedding
/// layer's.
#[derive(Debug, Clone)]
pub struct LuksFormatPlan {
    pub cipher: String,
    pub key_size: u32,
    pub hash_algorithm: String,
    pub iter_time_ms: u32,
}

/// Normalize the cipher and work factors of a LUKS format request.
pub fn plan_luks_format(settings: &EncryptionSettings) -> (r: LuksFormatPlan)
    ensures
        r.cipher@ == spec_normalize_cipher(settings.cipher@),
        r.key_size == settings.key_size,
        r.hash_algorithm@ == settings.hash_algo@,
        r.iter_time_ms == spec_iter_time_ms(settings.iterations),
{
    let cipher = if settings.cipher == String::from_str("aes-xts-plain64") || settings.cipher
        == String::from_str("serpent-xts-plain64") || settings.cipher == String::from_str(
        "twofish-xts-plain64",
    ) {
        settings.cipher.clone()
    } else {
        String::from_str("aes-xts-plain64")
    };
    let iter_time_ms = if settings.iterations / 1000 > 1 {
        settings.iterations / 1000
    } else {
        1
    };
    LuksFormatPlan {
        cipher,
        key_size: settings.key_size,
        hash_algorithm: settings.hash_algo.clone(),
        iter_time_ms,
    }
}

/// Whether the encryption settings name a type this pipeline can set up.
pub open spec fn spec_encryption_supported(settings: EncryptionSettings) -> bool {
    settings.encryption_type@ == "luks"@ || settings.encryption_type@ == "luks2"@
}

/// Whether a run with this configuration passes the encryption stage.
pub open spec fn spec_encryption_ok(config: BurnConfig) -> bool {
    match config.encryption {
        Some(settings) => !settings.enabled || spec_encryption_supported(settings),
        None => true,
    }
}

/// Decide how to set up encryption on the just-written device: a LUKS format
/// plan for the two LUKS types. VeraCrypt container formatting needs the
/// external veracrypt tool and is flagged unsupported here, like any unknown
/// type: a rejected-input error that aborts the run without rolling back the
/// written image.
pub fn plan_encryption(settings: &EncryptionSettings) -> (r: Result<LuksFormatPlan, ErrorKind>)
    ensures
        r is Ok <==> spec_encryption_supported(*settings),
        r matches Ok(p) ==> {
            &&& p.cipher@ == spec_normalize_cipher(settings.cipher@)
            &&& p.key_size == settings.key_size
            &&& p.hash_algorithm@ == settings.hash_algo@
            &&& p.iter_time_ms == spec_iter_time_ms(settings.iterations)
        },
        r is Err ==> r == Err::<LuksFormatPlan, ErrorKind>(ErrorKind::RejectedInput),
{
    if settings.encryption_type == String::from_str("luks") || settings.encryption_type
        == String::from_str("luks2") {
        Ok(plan_luks_format(settings))
    } else {
        Err(ErrorKind::RejectedInput)
    }
}

/// Accept a bootloader configuration: UEFI, legacy and hybrid are all
/// declarative selections with no hard dependency beyond a completed write,
/// and unknown modes are left to the platform default.
pub fn validate_bootloader(config: &BootloaderConfig) -> (r: Result<(), ErrorKind>)
    ensures
        r is Ok,
{
    if config.mode == String::from_str("uefi") {
        Ok(())
    } else if config.mode == String::from_str("legacy") {
        Ok(())
    } else if config.mode == String::from_str("hybrid") {
        Ok(())
    } else {
        Ok(())
    }
}

/// Copy the next chunk of the image onto the device, honoring a pending
/// cancellation request first: a cancelled copy commits nothing further and
/// the byte counter keeps exactly the bytes committed before.
pub fn copy_chunk(image: &[u8], device: &mut Vec<u8>, offset: usize, state: &mut OperationState)
    -> (r: Result<usize, ErrorKind>)
    requires
        offset < image@.len(),
        image@.len() <= old(device)@.len(),
        old(state).bytes_processed == offset,
    ensures
        old(state).cancel_requested ==> r == Err::<usize, ErrorKind>(ErrorKind::OperationCancelled)
            && *final(device) == *old(device) && *final(state) == *old(state),
        !old(state).cancel_requested ==> (r matches Ok(newoff) && {
            &&& newoff == if offset + COPY_CHUNK_SIZE < image@.len() {
                (offset + COPY_CHUNK_SIZE) as int
            } else {
                image@.len() as int
            }
            &&& final(device)@.len() == old(device)@.len()
            &&& forall|j: int|
                offset <= j < newoff ==> final(device)@[j] == image@[j]
            &&& forall|j: int|
                0 <= j < old(device)@.len() && !(offset <= j < newoff) ==> final(device)@[j]
                    == old(device)@[j]
            &&& final(state).bytes_processed == newoff
            &&& final(state).in_progress == old(state).in_progress
            &&& final(state).total_bytes == old(state).total_bytes
            &&& final(state).stage == old(state).stage
            &&& final(state).cancel_requested == old(state).cancel_requested
        }),
{
    if state.cancel_requested {
        return Err(ErrorKind::OperationCancelled);
    }
    let n = if image.len() - offset < COPY_CHUNK_SIZE {
        image.len() - offset
    } else {
        COPY_CHUNK_SIZE
    };
    let mut k: usize = 0;
    while k < n
        invariant
            0 <= k <= n,
            offset + n <= image@.len() <= device@.len(),
            image@.len() <= usize::MAX,
            device@.len() == old(device)@.len(),
            forall|j: int| offset <= j < offset + k ==> device@[j] == image@[j],
            forall|j: int|
                0 <= j < device@.len() && !(offset <= j < offset + k) ==> device@[j] == old(
                    device,
                )@[j],
        decreases n - k,
    {
        device[offset + k] = image[offset + k];
        k = k + 1;
    }
    state.record_progress((offset + n) as u64);
    Ok(offset + n)
}

/// Stream the source image onto the device in fixed chunks, checking the
/// cancellation flag before each chunk and publishing the byte counter after
/// each chunk. A device smaller than the image fails with an I/O error
/// before anything is committed. On success the device's leading bytes are
/// exactly the image and the rest of the extent is untouched.
pub fn write_image_to_drive(image: &[u8], device: &mut Vec<u8>, state: &mut OperationState) -> (r:
    Result<u64, ErrorKind>)
    requires
        old(state).bytes_processed == 0,
        image@.len() <= u64::MAX,
    ensures
        old(state).cancel_requested ==> r == Err::<u64, ErrorKind>(ErrorKind::OperationCancelled)
            && *final(device) == *old(device) && *final(state) == *old(state),
        !old(state).cancel_requested && old(device)@.len() < image@.len() ==> r == Err::<
            u64,
            ErrorKind,
        >(ErrorKind::IoFailure) && *final(device) == *old(device) && *final(state) == *old(state),
        !old(state).cancel_requested && old(device)@.len() >= image@.len() ==> r == Ok::<
            u64,
            ErrorKind,
        >(image@.len() as u64) && {
            &&& final(device)@.len() == old(device)@.len()
            &&& final(device)@.subrange(0, image@.len() as int) == image@
            &&& forall|j: int|
                image@.len() <= j < old(device)@.len() ==> final(device)@[j] == old(device)@[j]
            &&& final(state).bytes_processed == image@.len()
            &&& final(state).in_progress == old(state).in_progress
            &&& final(state).total_bytes == old(state).total_bytes
            &&& final(state).stage == old(state).stage
            &&& final(state).cancel_requested == old(state).cancel_requested
        },
{
    if state.cancel_requested {
        return Err(ErrorKind::OperationCancelled);
    }
    if device.len() < image.len() {
        return Err(ErrorKind::IoFailure);
    }
    let total = image.len();
    let mut offset: usize = 0;
    while offset < total
        invariant
            0 <= offset <= total,
            total == image@.len() <= device@.len() <= u64::MAX,
            device@.len() == old(device)@.len(),
            forall|j: int| 0 <= j < offset ==> device@[j] == image@[j],
            forall|j: int|
                offset <= j < device@.len() ==> device@[j] == old(device)@[j],
            state.bytes_processed == offset,
            state.in_progress == old(state).in_progress,
            state.total_bytes == old(state).total_bytes,
            state.stage == old(state).stage,
            state.cancel_requested == old(state).cancel_requested,
            !state.cancel_requested,
        decreases total - offset,
    {
        match copy_chunk(image, device, offset, state) {
            Ok(newoff) => {
                offset = newoff;
            },
            // No cancellation is pending inside the loop, so the copy of a
            // chunk cannot fail.
            Err(e) => {
                return Err(e);
            },
        }
    }
    proof {
        assert(device@.subrange(0, total as int) =~= image@);
    }
    Ok(total as u64)
}

/// Hash the source image and the written extent of the device (capped to the
/// image's length, since the device may be larger) with SHA-256 and compare
/// the digests. A mismatch is reported in the result, not raised as an
/// error: the destructive write already completed, so a failed verification
/// is informational.
pub fn verify_written_image(image: &[u8], device: &[u8], state: &mut OperationState) -> (r:
    HashResult)
    ensures
        r.algorithm@ == "sha256"@,
        string_bytes(r.hash) == hex_bytes(
            sha256_of(
                device@.subrange(
                    0,
                    if image@.len() < device@.len() {
                        image@.len() as int
                    } else {
                        device@.len() as int
                    },
                ),
            ),
        ),
        r.expected matches Some(e) && string_bytes(e) == hex_bytes(sha256_of(image@)),
        r.verified <==> sha256_of(
            device@.subrange(
                0,
                if image@.len() < device@.len() {
                    image@.len() as int
                } else {
                    device@.len() as int
                },
            ),
        ) == sha256_of(image@),
{
    // Exec length calls bound both views by usize::MAX for the hashing below.
    let _image_len = image.len();
    let _device_len = device.len();
    let original_hash = crate::hashing::sha256_hex(image, state);
    let prefix_len = if image.len() < device.len() {
        image.len()
    } else {
        device.len()
    };
    let written_hash = crate::hashing::sha256_hex(&device[0..prefix_len], state);
    let verified = original_hash == written_hash;
    proof {
        broadcast use vstd::utf8::encode_utf8_decode_utf8;

        if string_bytes(written_hash) == string_bytes(original_hash) {
            assert(vstd::utf8::decode_utf8(string_bytes(written_hash)) == written_hash@);
            assert(vstd::utf8::decode_utf8(string_bytes(original_hash)) == original_hash@);
        }
        let d_written = sha256_of(device@.subrange(0, prefix_len as int));
        let d_original = sha256_of(image@);
        if hex_bytes(d_written) == hex_bytes(d_original) {
            crate::hashing::lemma_hex_bytes_injective(d_written, d_original);
        }
    }
    HashResult {
        algorithm: String::from_str("sha256"),
        hash: written_hash,
        verified,
        expected: Some(original_hash),
    }
}

/// Run the whole burn pipeline against a device extent: claim the single
/// pipeline slot, erase if requested, stream the image onto the device,
/// plan the encryption setup, accept the bootloader selection, and verify
/// the written bytes if requested. Exactly one pipeline can run at a time;
/// a second start fails with `AlreadyRunning` and mutates nothing. On
/// success the device's leading bytes are exactly the image, and a requested
/// verification record always attests the match. Every exit clears the
/// "in progress" flag.
pub fn burn_image(
    config: &BurnConfig,
    image: &[u8],
    device: &mut Vec<u8>,
    state: &mut OperationState,
) -> (r: Result<BurnResult, ErrorKind>)
    ensures
        old(state).in_progress ==> r == Err::<BurnResult, ErrorKind>(ErrorKind::AlreadyRunning)
            && *final(state) == *old(state) && *final(device) == *old(device),
        !old(state).in_progress ==> {
            &&& !final(state).in_progress
            &&& (r is Ok <==> old(device)@.len() >= image@.len() && spec_encryption_ok(*config))
            &&& (r == Err::<BurnResult, ErrorKind>(ErrorKind::IoFailure) <==> old(device)@.len()
                < image@.len())
            &&& (r is Err ==> final(state).stage == Stage::Failed)
            &&& final(device)@.len() == old(device)@.len()
        },
        r matches Ok(res) ==> {
            &&& !old(state).in_progress
            &&& res.success
            &&& res.message@ == "Image burned successfully"@
            &&& res.bytes_written == image@.len()
            &&& final(device)@.subrange(0, image@.len() as int) == image@
            &&& (config.verify_after_write ==> (res.hash_verification matches Some(h)
                && h.verified))
            &&& (!config.verify_after_write ==> res.hash_verification is None)
            &&& final(state).stage == Stage::Complete
        },
{
    if !state.try_begin() {
        return Err(ErrorKind::AlreadyRunning);
    }
    let start_time = crate::encryption::unix_time_secs();
    if image.len() > device.len() {
        // The device cannot hold the image: the write would fail at the
        // first byte past the extent, so nothing is committed.
        state.end_run(Stage::Failed);
        return Err(ErrorKind::IoFailure);
    }
    state.begin_tracking(image.len() as u64);
    if config.secure_erase_before {
        state.set_stage(Stage::Erasing);
        let method = parse_erase_method(&config.erase_method);
        erase_extent(device, method);
    }
    if state.cancel_requested {
        state.end_run(Stage::Cancelled);
        return Err(ErrorKind::OperationCancelled);
    }
    state.set_stage(Stage::Writing);
    let bytes_written = match write_image_to_drive(image, device, state) {
        Ok(n) => n,
        Err(e) => {
            state.end_run(Stage::Failed);
            return Err(e);
        },
    };
    if state.cancel_requested {
        state.end_run(Stage::Cancelled);
        return Err(ErrorKind::OperationCancelled);
    }
    match &config.encryption {
        Some(enc) => {
            if enc.enabled {
                state.set_stage(Stage::ConfiguringEncryption);
                match plan_encryption(enc) {
                    // Invoking the external formatting tool on the plan is
                    // the embedding layer's task.
                    Ok(_) => {},
                    Err(e) => {
                        state.end_run(Stage::Failed);
                        return Err(e);
                    },
                }
            }
        },
        None => {},
    }
    state.set_stage(Stage::ConfiguringBootloader);
    match validate_bootloader(&config.bootloader) {
        Ok(()) => {},
        Err(e) => {
            state.end_run(Stage::Failed);
            return Err(e);
        },
    }
    let hash_verification = if config.verify_after_write {
        state.set_stage(Stage::Verifying);
        let record = verify_written_image(image, device.as_slice(), state);
        proof {
            assert(device@.subrange(0, image@.len() as int) =~= image@);
        }
        Some(record)
    } else {
        None
    };
    state.set_stage(Stage::Syncing);
    let end_time = crate::encryption::unix_time_secs();
    let duration_seconds = if end_time >= start_time {
        end_time - start_time
    } else {
        0
    };
    state.end_run(Stage::Complete);
    Ok(
        BurnResult {
            success: true,
            message: String::from_str("Image burned successfully"),
            hash_verification,
            duration_seconds,
            bytes_written,
        },
    )
}

/// Perform a standalone secure erase of a device extent, under the same
/// mutual exclusion as a burn run: a second operation fails with
/// `AlreadyRunning` and mutates nothing. After a method whose final pass is
/// deterministic (zero fill), the extent holds exactly that pattern.
pub fn secure_erase(device: &mut Vec<u8>, method_name: &String, state: &mut OperationState) -> (r:
    Result<(), ErrorKind>)
    ensures
        old(state).in_progress ==> r == Err::<(), ErrorKind>(ErrorKind::AlreadyRunning)
            && *final(state) == *old(state) && *final(device) == *old(device),
        !old(state).in_progress ==> {
            &&& r is Ok
            &&& !final(state).in_progress
            &&& final(state).stage == Stage::Complete
            &&& final(device)@.len() == old(device)@.len()
            &&& {
                let method = spec_parse_erase_method(method_name@);
                (method.spec_passes() > 0 && crate::secure_erase::is_deterministic(
                    crate::secure_erase::spec_pass_pattern(method, method.spec_passes() - 1),
                )) ==> forall|j: int|
                    0 <= j < final(device)@.len() ==> final(device)@[j]
                        == crate::secure_erase::pattern_byte(
                        crate::secure_erase::spec_pass_pattern(method, method.spec_passes() - 1),
                        j,
                    )
            }
        },
{
    if !state.try_begin() {
        return Err(ErrorKind::AlreadyRunning);
    }
    state.set_stage(Stage::Erasing);
    let method = parse_erase_method(method_name);
    erase_extent(device, method);
    state.end_run(Stage::Complete);
    Ok(())
}

} // verus!
