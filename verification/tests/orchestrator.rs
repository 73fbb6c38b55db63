use n01d_forge::burn::{
    burn_image, copy_chunk, plan_encryption, secure_erase, validate_bootloader,
    verify_written_image, write_image_to_drive, BootloaderConfig, BurnConfig, EncryptionSettings,
    COPY_CHUNK_SIZE,
};
use n01d_forge::drives::{find_drive, DriveInfo};
use n01d_forge::errors::ErrorKind;
use n01d_forge::image::{image_type_for_extension, make_image_info};
use n01d_forge::state::{get_burn_progress, OperationState, Stage};

fn basic_config() -> BurnConfig {
    BurnConfig {
        image_path: "/tmp/test.img".to_string(),
        target_drive: "/dev/null".to_string(),
        verify_after_write: true,
        secure_erase_before: false,
        erase_method: "zeros".to_string(),
        encryption: None,
        bootloader: BootloaderConfig {
            mode: "uefi".to_string(),
            secure_boot: false,
            persistent_storage: false,
            persistent_size_mb: 0,
        },
    }
}

fn luks_settings(encryption_type: &str) -> EncryptionSettings {
    EncryptionSettings {
        enabled: true,
        encryption_type: encryption_type.to_string(),
        password: "test-passphrase".to_string(),
        cipher: "aes-xts-plain64".to_string(),
        key_size: 512,
        hash_algo: "sha512".to_string(),
        iterations: 100000,
        wipe_header_on_error: false,
    }
}

#[test]
fn test_burn_writes_image_and_verifies() {
    let image: Vec<u8> = (0..=255u8).cycle().take(1000).collect();
    let mut device = vec![0xEEu8; 1200];
    let mut state = OperationState::new();
    let result = burn_image(&basic_config(), &image, &mut device, &mut state).unwrap();
    assert!(result.success);
    assert_eq!(result.message, "Image burned successfully");
    assert_eq!(result.bytes_written, 1000);
    assert_eq!(&device[..1000], &image[..]);
    assert_eq!(&device[1000..], &[0xEEu8; 200][..]);
    let verification = result.hash_verification.unwrap();
    assert!(verification.verified);
    assert_eq!(verification.algorithm, "sha256");
    assert!(!state.in_progress);
    assert_eq!(state.stage, Stage::Complete);
}

#[test]
fn test_burn_with_erase_zeroes_tail() {
    let image = vec![0xAAu8; 500];
    let mut device = vec![0x55u8; 800];
    let mut state = OperationState::new();
    let mut config = basic_config();
    config.secure_erase_before = true;
    config.erase_method = "zeros".to_string();
    let result = burn_image(&config, &image, &mut device, &mut state).unwrap();
    assert!(result.success);
    // The zero-fill pass swept the whole extent before the image landed.
    assert_eq!(&device[..500], &image[..]);
    assert_eq!(&device[500..], &[0u8; 300][..]);
}

#[test]
fn test_mutual_exclusion() {
    let image = vec![1u8; 10];
    let mut device = vec![0u8; 10];
    let mut state = OperationState::new();
    assert!(state.try_begin());
    state.record_progress(5);
    let r = burn_image(&basic_config(), &image, &mut device, &mut state);
    assert_eq!(r.unwrap_err(), ErrorKind::AlreadyRunning);
    // The first run's state is untouched.
    assert!(state.in_progress);
    assert_eq!(state.bytes_processed, 5);
    assert_eq!(device, vec![0u8; 10]);
}

#[test]
fn test_second_start_rejected_then_allowed_after_finish() {
    let image = vec![1u8; 10];
    let mut device = vec![0u8; 10];
    let mut state = OperationState::new();
    let first = burn_image(&basic_config(), &image, &mut device, &mut state);
    assert!(first.is_ok());
    assert!(!state.in_progress);
    let second = burn_image(&basic_config(), &image, &mut device, &mut state);
    assert!(second.is_ok());
}

#[test]
fn test_device_smaller_than_image_fails() {
    let image = vec![1u8; 100];
    let mut device = vec![0u8; 50];
    let mut state = OperationState::new();
    let r = burn_image(&basic_config(), &image, &mut device, &mut state);
    assert_eq!(r.unwrap_err(), ErrorKind::IoFailure);
    assert!(!state.in_progress);
    assert_eq!(state.stage, Stage::Failed);
    assert_eq!(device, vec![0u8; 50]);
}

#[test]
fn test_unknown_encryption_type_aborts_without_rollback() {
    let image = vec![9u8; 64];
    let mut device = vec![0u8; 64];
    let mut state = OperationState::new();
    let mut config = basic_config();
    config.encryption = Some(luks_settings("bitlocker"));
    let r = burn_image(&config, &image, &mut device, &mut state);
    assert_eq!(r.unwrap_err(), ErrorKind::RejectedInput);
    // The already-written image is not rolled back.
    assert_eq!(device, image);
}

#[test]
fn test_luks_encryption_type_accepted() {
    let image = vec![9u8; 64];
    let mut device = vec![0u8; 64];
    let mut state = OperationState::new();
    let mut config = basic_config();
    config.encryption = Some(luks_settings("luks2"));
    assert!(burn_image(&config, &image, &mut device, &mut state).is_ok());
}

#[test]
fn test_disabled_encryption_is_skipped() {
    let image = vec![9u8; 64];
    let mut device = vec![0u8; 64];
    let mut state = OperationState::new();
    let mut config = basic_config();
    let mut settings = luks_settings("bitlocker");
    settings.enabled = false;
    config.encryption = Some(settings);
    assert!(burn_image(&config, &image, &mut device, &mut state).is_ok());
}

#[test]
fn test_cancellation_between_chunks() {
    let image = vec![3u8; 2 * COPY_CHUNK_SIZE + 100];
    let mut device = vec![0u8; 2 * COPY_CHUNK_SIZE + 100];
    let mut state = OperationState::new();
    let first = copy_chunk(&image, &mut device, 0, &mut state).unwrap();
    assert_eq!(first, COPY_CHUNK_SIZE);
    assert_eq!(state.bytes_processed, COPY_CHUNK_SIZE as u64);
    state.request_cancel();
    let r = copy_chunk(&image, &mut device, first, &mut state);
    assert_eq!(r.unwrap_err(), ErrorKind::OperationCancelled);
    // The counter reflects only the bytes committed before cancellation,
    // and nothing past the first chunk was written.
    assert_eq!(state.bytes_processed, COPY_CHUNK_SIZE as u64);
    assert_eq!(&device[..COPY_CHUNK_SIZE], &image[..COPY_CHUNK_SIZE]);
    assert!(device[COPY_CHUNK_SIZE..].iter().all(|&b| b == 0));
}

#[test]
fn test_cancelled_write_commits_nothing() {
    let image = vec![3u8; 1000];
    let mut device = vec![0u8; 1000];
    let mut state = OperationState::new();
    state.request_cancel();
    let r = write_image_to_drive(&image, &mut device, &mut state);
    assert_eq!(r.unwrap_err(), ErrorKind::OperationCancelled);
    assert_eq!(state.bytes_processed, 0);
    assert_eq!(device, vec![0u8; 1000]);
}

#[test]
fn test_verification_mismatch_after_out_of_band_write() {
    let image: Vec<u8> = (0..200u8).collect();
    let mut device = vec![0u8; 256];
    let mut state = OperationState::new();
    let result = burn_image(&basic_config(), &image, &mut device, &mut state).unwrap();
    assert!(result.success);
    assert!(result.hash_verification.unwrap().verified);
    // Overwrite one byte of the destination out of band, then verify again.
    device[100] ^= 0xFF;
    let record = verify_written_image(&image, &device, &mut state);
    assert!(!record.verified);
    assert_eq!(record.algorithm, "sha256");
    let expected = record.expected.unwrap();
    assert_ne!(record.hash, expected);
}

#[test]
fn test_verify_caps_device_to_image_length() {
    let image = vec![7u8; 100];
    let mut device = vec![7u8; 100];
    device.extend_from_slice(&[0xFFu8; 50]);
    let mut state = OperationState::new();
    let record = verify_written_image(&image, &device, &mut state);
    assert!(record.verified);
}

#[test]
fn test_plan_encryption_dispatch() {
    let plan = plan_encryption(&luks_settings("luks")).unwrap();
    assert_eq!(plan.cipher, "aes-xts-plain64");
    assert_eq!(plan.key_size, 512);
    assert_eq!(plan.hash_algorithm, "sha512");
    assert_eq!(plan.iter_time_ms, 100);
    assert!(plan_encryption(&luks_settings("luks2")).is_ok());
    assert_eq!(
        plan_encryption(&luks_settings("veracrypt")).unwrap_err(),
        ErrorKind::RejectedInput
    );
    assert_eq!(
        plan_encryption(&luks_settings("unknown")).unwrap_err(),
        ErrorKind::RejectedInput
    );
}

#[test]
fn test_plan_normalizes_cipher_and_iter_time() {
    let mut settings = luks_settings("luks2");
    settings.cipher = "blowfish".to_string();
    settings.iterations = 500;
    let plan = plan_encryption(&settings).unwrap();
    assert_eq!(plan.cipher, "aes-xts-plain64");
    assert_eq!(plan.iter_time_ms, 1);
    settings.cipher = "serpent-xts-plain64".to_string();
    let plan = plan_encryption(&settings).unwrap();
    assert_eq!(plan.cipher, "serpent-xts-plain64");
}

#[test]
fn test_validate_bootloader_accepts_all_modes() {
    for mode in ["uefi", "legacy", "hybrid", "other"] {
        let config = BootloaderConfig {
            mode: mode.to_string(),
            secure_boot: true,
            persistent_storage: false,
            persistent_size_mb: 0,
        };
        assert!(validate_bootloader(&config).is_ok());
    }
}

#[test]
fn test_standalone_secure_erase() {
    let mut device = vec![0xCDu8; 300];
    let mut state = OperationState::new();
    let r = secure_erase(&mut device, &"zeros".to_string(), &mut state);
    assert!(r.is_ok());
    assert!(device.iter().all(|&b| b == 0));
    assert!(!state.in_progress);
    // A second operation while one is in progress is rejected.
    assert!(state.try_begin());
    let r = secure_erase(&mut device, &"zeros".to_string(), &mut state);
    assert_eq!(r.unwrap_err(), ErrorKind::AlreadyRunning);
}

#[test]
fn test_progress_snapshot_percent() {
    let mut state = OperationState::new();
    assert!(state.try_begin());
    state.begin_tracking(200);
    state.set_stage(Stage::Writing);
    state.record_progress(50);
    let snapshot = get_burn_progress(&state);
    assert_eq!(snapshot.percent, 25);
    assert_eq!(snapshot.bytes_written, 50);
    assert_eq!(snapshot.total_bytes, 200);
    assert_eq!(snapshot.stage, Stage::Writing);
    assert_eq!(snapshot.stage.label(), "Writing image to drive...");
}

#[test]
fn test_progress_percent_zero_total() {
    let state = OperationState::new();
    assert_eq!(get_burn_progress(&state).percent, 0);
}

#[test]
fn test_empty_image_burn() {
    let image: Vec<u8> = Vec::new();
    let mut device = vec![5u8; 10];
    let mut state = OperationState::new();
    let result = burn_image(&basic_config(), &image, &mut device, &mut state).unwrap();
    assert!(result.success);
    assert_eq!(result.bytes_written, 0);
    assert_eq!(device, vec![5u8; 10]);
}

#[test]
fn test_image_type_classification() {
    assert_eq!(image_type_for_extension(&"iso".to_string()), "ISO 9660");
    assert_eq!(image_type_for_extension(&"img".to_string()), "Raw Disk Image");
    assert_eq!(image_type_for_extension(&"raw".to_string()), "Raw Disk Image");
    assert_eq!(image_type_for_extension(&"dmg".to_string()), "Apple Disk Image");
    assert_eq!(image_type_for_extension(&"vhdx".to_string()), "Virtual Hard Disk");
    assert_eq!(image_type_for_extension(&"qcow2".to_string()), "QEMU Copy-on-Write");
    assert_eq!(image_type_for_extension(&"exe".to_string()), "Unknown");
    let info = make_image_info("/data/disk.iso", "disk.iso", 4096, &"iso".to_string());
    assert_eq!(info.image_type, "ISO 9660");
    assert_eq!(info.size, 4096);
}

#[test]
fn test_find_drive_lookup() {
    let drive = |device: &str| DriveInfo {
        device: device.to_string(),
        name: "sdx".to_string(),
        size: 1 << 30,
        size_human: "1.00 GB".to_string(),
        model: "Test".to_string(),
        vendor: "ACME".to_string(),
        serial: "0001".to_string(),
        is_removable: true,
        is_usb: true,
        mount_points: Vec::new(),
        partitions: Vec::new(),
        bus_type: "usb".to_string(),
    };
    let drives = vec![drive("/dev/sda"), drive("/dev/sdb")];
    let found = find_drive(&drives, &"/dev/sdb".to_string()).unwrap();
    assert_eq!(found.device, "/dev/sdb");
    assert!(find_drive(&drives, &"/dev/sdc".to_string()).is_none());
}
