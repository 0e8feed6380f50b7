//! Device validation logic: the genuine-model whitelist, the virtual
//! machine heuristics over readings the caller collects, and the
//! hardware fingerprint. Running the platform tools that produce the
//! readings is the caller's business; the decisions over them live here.

use vstd::prelude::*;
use vstd::string::StringExecFns;
use vstd::utf8::encode_utf8;
use crate::crypto::sha256_digest;
use crate::crypto::spec_sha256_of;
use crate::text::append_bytes;
use crate::text::spec_hex;
use crate::text::spec_starts_with;
use crate::text::spec_str_contains;
use crate::text::str_contains;
use crate::text::str_eq;
use crate::text::str_starts_with;
use crate::text::to_hex;

verus! {

/// The case folding the model string is searched under.
pub uninterp spec fn spec_lower_of(s: Seq<char>) -> Seq<char>;

/// Relies on str::to_lowercase: the case folding is determined by the
/// characters alone.
#[verifier::external_body]
pub fn lowercase(s: &str) -> (r: String)
    ensures
        r@ == spec_lower_of(s@),
{
    s.to_lowercase()
}

/// The hardware readings a device identifies itself by.
#[derive(Clone, Debug)]
pub struct MacHardwareInfo {
    pub hardware_uuid: String,
    pub serial_number: String,
    pub model_identifier: String,
    pub board_id: String,
    pub rom_version: String,
    pub cpu_brand: String,
}

/// The bytes the device fingerprint digests: the identifying readings,
/// concatenated in a fixed order.
pub open spec fn spec_fingerprint_input(
    hardware_uuid: Seq<char>,
    serial_number: Seq<char>,
    model_identifier: Seq<char>,
    board_id: Seq<char>,
) -> Seq<u8> {
    encode_utf8(hardware_uuid) + encode_utf8(serial_number) + encode_utf8(model_identifier)
        + encode_utf8(board_id)
}

impl MacHardwareInfo {
    /// The device fingerprint: the hex rendering of the SHA-256 digest
    /// over the identifying readings.
    pub fn generate_fingerprint(&self) -> (r: String)
        ensures
            r@ == spec_hex(
                spec_sha256_of(
                    spec_fingerprint_input(
                        self.hardware_uuid@,
                        self.serial_number@,
                        self.model_identifier@,
                        self.board_id@,
                    ),
                ),
            ),
    {
        let mut input: Vec<u8> = Vec::new();
        append_bytes(&mut input, self.hardware_uuid.as_str().as_bytes());
        append_bytes(&mut input, self.serial_number.as_str().as_bytes());
        append_bytes(&mut input, self.model_identifier.as_str().as_bytes());
        append_bytes(&mut input, self.board_id.as_str().as_bytes());
        let digest = sha256_digest(input.as_slice());
        to_hex(&digest)
    }
}

/// Why a device was refused as not a genuine machine.
#[derive(Clone, Copy, Debug, PartialEq, Eq, Structural)]
pub enum ValidationError {
    /// The model identifier is not on the whitelist.
    UnsupportedModel,
    /// The serial number is a virtual machine signature.
    InvalidSerialNumber,
    /// The board identifier is a virtual machine signature.
    InvalidBoardId,
    /// The processor is not Apple silicon.
    UnsupportedCpu,
}

/// Whether the model identifier is on the genuine-model whitelist.
pub open spec fn spec_model_allowed(m: Seq<char>) -> bool {
    ||| m == "Macmini9,1"@
    ||| m == "Mac14,3"@
    ||| m == "Mac14,12"@
    ||| m == "Mac16,10"@
    ||| m == "MacBookPro18,1"@
    ||| m == "MacBookPro18,2"@
    ||| m == "MacBookPro18,3"@
    ||| m == "MacBookPro18,4"@
    ||| m == "Mac14,7"@
    ||| m == "Mac14,5"@
    ||| m == "Mac14,9"@
    ||| m == "Mac14,6"@
    ||| m == "Mac14,10"@
    ||| m == "Mac15,3"@
    ||| m == "Mac15,6"@
    ||| m == "Mac15,7"@
    ||| m == "Mac15,8"@
    ||| m == "Mac15,9"@
    ||| m == "Mac15,10"@
    ||| m == "Mac15,11"@
    ||| m == "Mac16,1"@
    ||| m == "Mac16,2"@
    ||| m == "Mac16,3"@
    ||| m == "Mac16,4"@
    ||| m == "Mac16,5"@
    ||| m == "Mac16,6"@
    ||| m == "Mac16,7"@
    ||| m == "MacBookAir10,1"@
    ||| m == "Mac14,2"@
    ||| m == "Mac14,15"@
    ||| m == "Mac15,12"@
    ||| m == "Mac15,13"@
    ||| m == "Mac16,12"@
    ||| m == "Mac16,13"@
    ||| m == "iMac21,1"@
    ||| m == "iMac21,2"@
    ||| m == "Mac15,4"@
    ||| m == "Mac15,5"@
    ||| m == "Mac16,8"@
    ||| m == "Mac16,9"@
    ||| m == "Mac13,1"@
    ||| m == "Mac13,2"@
    ||| m == "Mac14,13"@
    ||| m == "Mac14,14"@
    ||| m == "Mac16,14"@
    ||| m == "Mac16,15"@
    ||| m == "Mac14,8"@
    ||| m == "Mac16,16"@
}

/// Whether the serial number passes: not empty and not the virtual
/// machine signature `0`.
pub open spec fn spec_serial_ok(s: Seq<char>) -> bool {
    !(s == "0"@ || s.len() == 0)
}

/// Whether the board identifier passes: not empty and not an obvious
/// virtual machine signature.
pub open spec fn spec_board_ok(b: Seq<char>) -> bool {
    !(b == "0"@ || b.len() == 0 || b == "unknown"@)
}

/// Whether the processor brand names Apple silicon.
pub open spec fn spec_cpu_ok(c: Seq<char>) -> bool {
    spec_str_contains(c, "Apple"@)
}

fn is_allowed_model(m: &str) -> (r: bool)
    ensures
        r == spec_model_allowed(m@),
{
    if str_eq(m, "Macmini9,1") {
        return true;
    }
    if str_eq(m, "Mac14,3") {
        return true;
    }
    if str_eq(m, "Mac14,12") {
        return true;
    }
    if str_eq(m, "Mac16,10") {
        return true;
    }
    if str_eq(m, "MacBookPro18,1") {
        return true;
    }
    if str_eq(m, "MacBookPro18,2") {
        return true;
    }
    if str_eq(m, "MacBookPro18,3") {
        return true;
    }
    if str_eq(m, "MacBookPro18,4") {
        return true;
    }
    if str_eq(m, "Mac14,7") {
        return true;
    }
    if str_eq(m, "Mac14,5") {
        return true;
    }
    if str_eq(m, "Mac14,9") {
        return true;
    }
    if str_eq(m, "Mac14,6") {
        return true;
    }
    if str_eq(m, "Mac14,10") {
        return true;
    }
    if str_eq(m, "Mac15,3") {
        return true;
    }
    if str_eq(m, "Mac15,6") {
        return true;
    }
    if str_eq(m, "Mac15,7") {
        return true;
    }
    if str_eq(m, "Mac15,8") {
        return true;
    }
    if str_eq(m, "Mac15,9") {
        return true;
    }
    if str_eq(m, "Mac15,10") {
        return true;
    }
    if str_eq(m, "Mac15,11") {
        return true;
    }
    if str_eq(m, "Mac16,1") {
        return true;
    }
    if str_eq(m, "Mac16,2") {
        return true;
    }
    if str_eq(m, "Mac16,3") {
        return true;
    }
    if str_eq(m, "Mac16,4") {
        return true;
    }
    if str_eq(m, "Mac16,5") {
        return true;
    }
    if str_eq(m, "Mac16,6") {
        return true;
    }
    if str_eq(m, "Mac16,7") {
        return true;
    }
    if str_eq(m, "MacBookAir10,1") {
        return true;
    }
    if str_eq(m, "Mac14,2") {
        return true;
    }
    if str_eq(m, "Mac14,15") {
        return true;
    }
    if str_eq(m, "Mac15,12") {
        return true;
    }
    if str_eq(m, "Mac15,13") {
        return true;
    }
    if str_eq(m, "Mac16,12") {
        return true;
    }
    if str_eq(m, "Mac16,13") {
        return true;
    }
    if str_eq(m, "iMac21,1") {
        return true;
    }
    if str_eq(m, "iMac21,2") {
        return true;
    }
    if str_eq(m, "Mac15,4") {
        return true;
    }
    if str_eq(m, "Mac15,5") {
        return true;
    }
    if str_eq(m, "Mac16,8") {
        return true;
    }
    if str_eq(m, "Mac16,9") {
        return true;
    }
    if str_eq(m, "Mac13,1") {
        return true;
    }
    if str_eq(m, "Mac13,2") {
        return true;
    }
    if str_eq(m, "Mac14,13") {
        return true;
    }
    if str_eq(m, "Mac14,14") {
        return true;
    }
    if str_eq(m, "Mac16,14") {
        return true;
    }
    if str_eq(m, "Mac16,15") {
        return true;
    }
    if str_eq(m, "Mac14,8") {
        return true;
    }
    if str_eq(m, "Mac16,16") {
        return true;
    }
    false
}

/// The genuine-machine validation rules.
pub struct MacValidator;

impl MacValidator {
    /// Validates the hardware readings against the whitelist and the
    /// virtual machine signatures, reporting the first failing check.
    pub fn validate(hw_info: &MacHardwareInfo) -> (r: Result<(), ValidationError>)
        ensures
            match r {
                Ok(()) => spec_model_allowed(hw_info.model_identifier@) && spec_serial_ok(
                    hw_info.serial_number@,
                ) && spec_board_ok(hw_info.board_id@) && spec_cpu_ok(hw_info.cpu_brand@),
                Err(ValidationError::UnsupportedModel) => !spec_model_allowed(
                    hw_info.model_identifier@,
                ),
                Err(ValidationError::InvalidSerialNumber) => spec_model_allowed(
                    hw_info.model_identifier@,
                ) && !spec_serial_ok(hw_info.serial_number@),
                Err(ValidationError::InvalidBoardId) => spec_model_allowed(
                    hw_info.model_identifier@,
                ) && spec_serial_ok(hw_info.serial_number@) && !spec_board_ok(hw_info.board_id@),
                Err(ValidationError::UnsupportedCpu) => spec_model_allowed(
                    hw_info.model_identifier@,
                ) && spec_serial_ok(hw_info.serial_number@) && spec_board_ok(hw_info.board_id@)
                    && !spec_cpu_ok(hw_info.cpu_brand@),
            },
    {
        if !is_allowed_model(hw_info.model_identifier.as_str()) {
            return Err(ValidationError::UnsupportedModel);
        }
        if str_eq(hw_info.serial_number.as_str(), "0") || hw_info.serial_number.as_str().unicode_len() == 0 {
            return Err(ValidationError::InvalidSerialNumber);
        }
        if str_eq(hw_info.board_id.as_str(), "0") || hw_info.board_id.as_str().unicode_len() == 0
            || str_eq(hw_info.board_id.as_str(), "unknown") {
            return Err(ValidationError::InvalidBoardId);
        }
        if !str_contains(hw_info.cpu_brand.as_str(), "Apple") {
            return Err(ValidationError::UnsupportedCpu);
        }
        Ok(())
    }

    /// The human-readable name shown for a model identifier.
    pub fn get_friendly_name(model: &str) -> (r: String)
        ensures
            r@ == spec_friendly_name(model@),
    {
        if str_eq(model, "Macmini9,1") {
            return String::from_str("Mac mini (M1, 2020)");
        }
        if str_eq(model, "Mac14,3") {
            return String::from_str("Mac mini (M2, 2023)");
        }
        if str_eq(model, "Mac14,12") {
            return String::from_str("Mac mini (M2 Pro, 2023)");
        }
        if str_eq(model, "Mac16,10") {
            return String::from_str("Mac mini (M4, 2024)");
        }
        if str_starts_with(model, "MacBookPro") {
            return String::from_str("MacBook Pro (Apple Silicon)");
        }
        if str_starts_with(model, "MacBookAir") {
            return String::from_str("MacBook Air (Apple Silicon)");
        }
        if str_starts_with(model, "iMac") {
            return String::from_str("iMac (Apple Silicon)");
        }
        if str_starts_with(model, "Mac13") || str_starts_with(model, "Mac14,13")
            || str_starts_with(model, "Mac14,14") || str_starts_with(model, "Mac16,14")
            || str_starts_with(model, "Mac16,15") {
            return String::from_str("Mac Studio");
        }
        if str_eq(model, "Mac14,8") || str_eq(model, "Mac16,16") {
            return String::from_str("Mac Pro (Apple Silicon)");
        }
        String::from_str("Mac (Apple Silicon)")
    }
}

/// The human-readable name for a model identifier: named minis first,
/// then the product families by prefix, then the generic name.
pub open spec fn spec_friendly_name(m: Seq<char>) -> Seq<char> {
    if m == "Macmini9,1"@ {
        "Mac mini (M1, 2020)"@
    } else if m == "Mac14,3"@ {
        "Mac mini (M2, 2023)"@
    } else if m == "Mac14,12"@ {
        "Mac mini (M2 Pro, 2023)"@
    } else if m == "Mac16,10"@ {
        "Mac mini (M4, 2024)"@
    } else if spec_starts_with(m, "MacBookPro"@) {
        "MacBook Pro (Apple Silicon)"@
    } else if spec_starts_with(m, "MacBookAir"@) {
        "MacBook Air (Apple Silicon)"@
    } else if spec_starts_with(m, "iMac"@) {
        "iMac (Apple Silicon)"@
    } else if spec_starts_with(m, "Mac13"@) || spec_starts_with(m, "Mac14,13"@)
        || spec_starts_with(m, "Mac14,14"@) || spec_starts_with(m, "Mac16,14"@)
        || spec_starts_with(m, "Mac16,15"@) {
        "Mac Studio"@
    } else if m == "Mac14,8"@ || m == "Mac16,16"@ {
        "Mac Pro (Apple Silicon)"@
    } else {
        "Mac (Apple Silicon)"@
    }
}

/// Platform readings the virtual machine heuristics decide over.
#[derive(Clone, Debug)]
pub struct VmProbe {
    /// Whether the platform serial number reads as the literal `0`.
    pub serial_is_zero: bool,
    /// The raw hardware model string.
    pub hardware_model: String,
    /// Physical memory in bytes.
    pub memsize_bytes: u64,
    /// Whether any Apple USB device is present.
    pub has_apple_usb: bool,
}

/// The hypervisor name found in the case-folded model string, if any;
/// the names are tried in a fixed order.
pub open spec fn spec_hypervisor_in(lower: Seq<char>) -> Option<Seq<char>> {
    if spec_str_contains(lower, "vmware"@) {
        Some("vmware"@)
    } else if spec_str_contains(lower, "virtualbox"@) {
        Some("virtualbox"@)
    } else if spec_str_contains(lower, "parallels"@) {
        Some("parallels"@)
    } else if spec_str_contains(lower, "qemu"@) {
        Some("qemu"@)
    } else if spec_str_contains(lower, "utm"@) {
        Some("utm"@)
    } else {
        None
    }
}

/// The warnings the heuristics raise, in their fixed order of checks.
pub open spec fn spec_vm_warnings(
    serial_is_zero: bool,
    lower_model: Seq<char>,
    memsize_bytes: u64,
    has_apple_usb: bool,
) -> Seq<Seq<char>> {
    let s0: Seq<Seq<char>> = if serial_is_zero {
        seq!["Serial number is '0' (VM signature)"@]
    } else {
        Seq::empty()
    };
    let s1: Seq<Seq<char>> = match spec_hypervisor_in(lower_model) {
        Some(name) => s0 + seq!["Hypervisor detected in hw.model: "@ + name],
        None => s0,
    };
    let s2: Seq<Seq<char>> = if memsize_bytes < 8000000000 {
        s1 + seq!["Suspicious memory configuration (< 8GB)"@]
    } else {
        s1
    };
    if !has_apple_usb {
        s2 + seq!["No Apple USB devices found (VM signature)"@]
    } else {
        s2
    }
}

/// The virtual machine detection heuristics.
pub struct VMDetector;

impl VMDetector {
    /// Decides the list of suspicious features in the given readings.
    /// The boot-ROM check is disabled and contributes nothing.
    pub fn detect(probe: &VmProbe) -> (r: Vec<String>)
        ensures
            r@.map_values(|s: String| s@) == spec_vm_warnings(
                probe.serial_is_zero,
                spec_lower_of(probe.hardware_model@),
                probe.memsize_bytes,
                probe.has_apple_usb,
            ),
    {
        let mut warnings: Vec<String> = Vec::new();
        if probe.serial_is_zero {
            warnings.push(String::from_str("Serial number is '0' (VM signature)"));
        }
        let lower = lowercase(probe.hardware_model.as_str());
        if str_contains(lower.as_str(), "vmware") {
            warnings.push(hypervisor_warning("vmware"));
        } else if str_contains(lower.as_str(), "virtualbox") {
            warnings.push(hypervisor_warning("virtualbox"));
        } else if str_contains(lower.as_str(), "parallels") {
            warnings.push(hypervisor_warning("parallels"));
        } else if str_contains(lower.as_str(), "qemu") {
            warnings.push(hypervisor_warning("qemu"));
        } else if str_contains(lower.as_str(), "utm") {
            warnings.push(hypervisor_warning("utm"));
        }
        if probe.memsize_bytes < 8000000000 {
            warnings.push(String::from_str("Suspicious memory configuration (< 8GB)"));
        }
        if !probe.has_apple_usb {
            warnings.push(String::from_str("No Apple USB devices found (VM signature)"));
        }
        if Self::check_rom_version() {
            warnings.push(String::from_str("Invalid or missing Boot ROM version"));
        }
        proof {
            assert(warnings@.map_values(|s: String| s@) =~~= spec_vm_warnings(
                probe.serial_is_zero,
                spec_lower_of(probe.hardware_model@),
                probe.memsize_bytes,
                probe.has_apple_usb,
            ));
        }
        warnings
    }

    /// The boot-ROM reading is no longer consulted: newer machines do
    /// not report one, and the model whitelist already decides.
    pub fn check_rom_version() -> (r: bool)
        ensures
            r == false,
    {
        false
    }
}

fn hypervisor_warning(name: &str) -> (r: String)
    ensures
        r@ == "Hypervisor detected in hw.model: "@ + name@,
{
    let mut s = String::from_str("Hypervisor detected in hw.model: ");
    s.append(name);
    s
}

/// The identity a freshly registered device is known by.
#[derive(Clone, Debug)]
pub struct DeviceRegistration {
    pub device_id: String,
    pub display_name: String,
}

/// The registration payload presented to the server.
#[derive(Clone, Debug)]
pub struct RegisterRequest {
    pub fingerprint: String,
    pub model: String,
    pub serial_hash: String,
    pub public_key: String,
}

/// The hex rendering of the SHA-256 digest of the serial number.
pub open spec fn spec_serial_hash(serial: Seq<char>) -> Seq<char> {
    spec_hex(spec_sha256_of(encode_utf8(serial)))
}

/// Assembles the registration payload from the hardware readings and
/// the encoded public key; the serial number travels only as a digest.
pub fn build_register_request(hw_info: &MacHardwareInfo, public_key: String) -> (r: RegisterRequest)
    ensures
        r.fingerprint@ == spec_hex(
            spec_sha256_of(
                spec_fingerprint_input(
                    hw_info.hardware_uuid@,
                    hw_info.serial_number@,
                    hw_info.model_identifier@,
                    hw_info.board_id@,
                ),
            ),
        ),
        r.model@ == hw_info.model_identifier@,
        r.serial_hash@ == spec_serial_hash(hw_info.serial_number@),
        r.public_key@ == public_key@,
{
    let fingerprint = hw_info.generate_fingerprint();
    let digest = sha256_digest(hw_info.serial_number.as_str().as_bytes());
    let serial_hash = to_hex(&digest);
    RegisterRequest {
        fingerprint,
        model: hw_info.model_identifier.clone(),
        serial_hash,
        public_key,
    }
}

/// The display name a registration settles on: the server's choice, or
/// a fallback derived from the first eight characters of the device id.
pub fn choose_display_name(offered: Option<String>, device_id: &str) -> (r: String)
    requires
        offered is None ==> device_id@.len() >= 8 && device_id.is_ascii(),
    ensures
        match offered {
            Some(name) => r@ == name@,
            None => r@ == "device_"@ + device_id@.subrange(0, 8),
        },
{
    match offered {
        Some(name) => name,
        None => {
            let mut s = String::from_str("device_");
            s.append(device_id.substring_ascii(0, 8));
            proof {
                assert(s@ =~= "device_"@ + device_id@.subrange(0, 8));
            }
            s
        },
    }
}

} // verus!
