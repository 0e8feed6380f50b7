use sha2::Digest;
use sacas::device::{
    build_register_request, choose_display_name, MacHardwareInfo, MacValidator, VMDetector,
    ValidationError, VmProbe,
};

fn genuine_hw() -> MacHardwareInfo {
    MacHardwareInfo {
        hardware_uuid: "AAAA-BBBB".to_string(),
        serial_number: "C02XL0GZJGH5".to_string(),
        model_identifier: "MacBookPro18,1".to_string(),
        board_id: "Mac-XXXX".to_string(),
        rom_version: "10151.81.1".to_string(),
        cpu_brand: "Apple M1 Pro".to_string(),
    }
}

#[test]
fn test_validate_genuine_hardware() {
    assert!(MacValidator::validate(&genuine_hw()).is_ok());
}

#[test]
fn test_validate_rejects_unknown_model() {
    let mut hw = genuine_hw();
    hw.model_identifier = "VMware7,1".to_string();
    assert_eq!(
        MacValidator::validate(&hw).unwrap_err(),
        ValidationError::UnsupportedModel
    );
}

#[test]
fn test_validate_rejects_vm_serial() {
    let mut hw = genuine_hw();
    hw.serial_number = "0".to_string();
    assert_eq!(
        MacValidator::validate(&hw).unwrap_err(),
        ValidationError::InvalidSerialNumber
    );
    hw.serial_number = String::new();
    assert_eq!(
        MacValidator::validate(&hw).unwrap_err(),
        ValidationError::InvalidSerialNumber
    );
}

#[test]
fn test_validate_rejects_vm_board_id() {
    let mut hw = genuine_hw();
    hw.board_id = "unknown".to_string();
    assert_eq!(
        MacValidator::validate(&hw).unwrap_err(),
        ValidationError::InvalidBoardId
    );
}

#[test]
fn test_validate_rejects_non_apple_cpu() {
    let mut hw = genuine_hw();
    hw.cpu_brand = "Intel(R) Core(TM) i7".to_string();
    assert_eq!(
        MacValidator::validate(&hw).unwrap_err(),
        ValidationError::UnsupportedCpu
    );
}

#[test]
fn test_friendly_names() {
    assert_eq!(
        MacValidator::get_friendly_name("Macmini9,1"),
        "Mac mini (M1, 2020)"
    );
    assert_eq!(
        MacValidator::get_friendly_name("MacBookPro18,3"),
        "MacBook Pro (Apple Silicon)"
    );
    assert_eq!(MacValidator::get_friendly_name("Mac13,1"), "Mac Studio");
    assert_eq!(
        MacValidator::get_friendly_name("Mac14,8"),
        "Mac Pro (Apple Silicon)"
    );
    assert_eq!(
        MacValidator::get_friendly_name("SomethingElse"),
        "Mac (Apple Silicon)"
    );
}

#[test]
fn test_vm_detection_flags_suspicious_readings() {
    let probe = VmProbe {
        serial_is_zero: true,
        hardware_model: "VMware Virtual Platform".to_string(),
        memsize_bytes: 4_000_000_000,
        has_apple_usb: false,
    };
    let warnings = VMDetector::detect(&probe);
    assert_eq!(
        warnings,
        vec![
            "Serial number is '0' (VM signature)".to_string(),
            "Hypervisor detected in hw.model: vmware".to_string(),
            "Suspicious memory configuration (< 8GB)".to_string(),
            "No Apple USB devices found (VM signature)".to_string(),
        ]
    );
}

#[test]
fn test_vm_detection_passes_clean_readings() {
    let probe = VmProbe {
        serial_is_zero: false,
        hardware_model: "Mac14,3".to_string(),
        memsize_bytes: 16_000_000_000,
        has_apple_usb: true,
    };
    assert!(VMDetector::detect(&probe).is_empty());
    assert!(!VMDetector::check_rom_version());
}

#[test]
fn test_fingerprint_is_digest_of_readings() {
    let hw = genuine_hw();
    let mut hasher = sha2::Sha256::new();
    hasher.update(hw.hardware_uuid.as_bytes());
    hasher.update(hw.serial_number.as_bytes());
    hasher.update(hw.model_identifier.as_bytes());
    hasher.update(hw.board_id.as_bytes());
    let expected = format!("{:x}", hasher.finalize());
    assert_eq!(hw.generate_fingerprint(), expected);
}

#[test]
fn test_register_request_hashes_serial() {
    let hw = genuine_hw();
    let req = build_register_request(&hw, "PUBKEY".to_string());
    let expected = format!("{:x}", sha2::Sha256::digest(hw.serial_number.as_bytes()));
    assert_eq!(req.serial_hash, expected);
    assert_eq!(req.model, "MacBookPro18,1");
    assert_eq!(req.public_key, "PUBKEY");
    assert_eq!(req.fingerprint, hw.generate_fingerprint());
}

#[test]
fn test_display_name_fallback() {
    assert_eq!(
        choose_display_name(Some("mybox".to_string()), "abcdefgh123"),
        "mybox"
    );
    assert_eq!(
        choose_display_name(None, "abcdefgh123"),
        "device_abcdefgh"
    );
}
