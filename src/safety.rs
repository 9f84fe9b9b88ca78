//! The device-safety invariant checked before any destructive write.

use vstd::prelude::*;
use crate::text::{same_text, strip_leading, trim_leading};

verus! {

/// Smallest medium accepted for flashing: 4 GiB.
pub const MIN_SD_SIZE_BYTES: u64 = 4294967296;

/// Largest medium accepted for flashing: 512 GiB (anything larger is taken
/// for an internal drive).
pub const MAX_SD_SIZE_BYTES: u64 = 549755813888;

/// A candidate removable medium, as enumerated on the host.
pub struct SDCard {
    pub path: String,
    pub name: String,
    pub size: u64,
    pub removable: bool,
}

/// Why a device was refused for writing.
#[derive(Clone, Copy, Debug, PartialEq, Eq, Structural)]
pub enum SafetyViolation {
    /// The device is one of the reserved system disks.
    SystemDisk,
    /// The device is larger than the accepted window.
    TooLarge,
    /// The device is smaller than the accepted window.
    TooSmall,
}

/// The disk identifier of a raw or block device path
/// (`/dev/rdisk11` and `/dev/disk11` both give `disk11`).
pub open spec fn disk_id_of(path: Seq<char>) -> Seq<char> {
    strip_leading(strip_leading(path, "/dev/r"@), "/dev/"@)
}

/// The reserved system-disk identifiers.
pub open spec fn is_reserved_disk(id: Seq<char>) -> bool {
    id == "disk0"@ || id == "disk1"@ || id == "disk2"@ || id == "disk3"@
}

/// The size window of a flashable medium.
pub open spec fn size_in_window(size: u64) -> bool {
    MIN_SD_SIZE_BYTES <= size <= MAX_SD_SIZE_BYTES
}

/// The device-safety invariant: eligible only inside the size window and
/// outside the reserved set.
pub open spec fn safe_to_flash(path: Seq<char>, size: u64) -> bool {
    size_in_window(size) && !is_reserved_disk(disk_id_of(path))
}

/// The verdict of the safety check, in the order the checks are made.
pub open spec fn safety_verdict(path: Seq<char>, size: u64) -> Result<(), SafetyViolation> {
    if is_reserved_disk(disk_id_of(path)) {
        Err(SafetyViolation::SystemDisk)
    } else if size > MAX_SD_SIZE_BYTES {
        Err(SafetyViolation::TooLarge)
    } else if size < MIN_SD_SIZE_BYTES {
        Err(SafetyViolation::TooSmall)
    } else {
        Ok(())
    }
}

/// The message of a safety refusal.
pub open spec fn violation_text(x: SafetyViolation) -> Seq<char> {
    match x {
        SafetyViolation::SystemDisk => "SECURITE: Impossible de flasher le disque systeme!"@,
        SafetyViolation::TooLarge => "SECURITE: Disque trop grand pour etre une carte SD (max 512GB)"@,
        SafetyViolation::TooSmall => "SECURITE: Disque trop petit (min 4GB requis)"@,
    }
}

impl SafetyViolation {
    /// Human-readable explanation of the refusal.
    pub fn message(&self) -> (r: &'static str)
        ensures
            r@ == violation_text(*self),
    {
        match self {
            SafetyViolation::SystemDisk => "SECURITE: Impossible de flasher le disque systeme!",
            SafetyViolation::TooLarge => "SECURITE: Disque trop grand pour etre une carte SD (max 512GB)",
            SafetyViolation::TooSmall => "SECURITE: Disque trop petit (min 4GB requis)",
        }
    }
}

/// Extracts the disk identifier from a device path.
pub fn disk_id(device_path: &str) -> (r: &str)
    ensures
        r@ == disk_id_of(device_path@),
{
    let once = trim_leading(device_path, "/dev/r");
    trim_leading(once, "/dev/")
}

/// True when the identifier is one of the reserved system disks.
pub fn is_system_disk(id: &str) -> (r: bool)
    ensures
        r == is_reserved_disk(id@),
{
    same_text(id, "disk0") || same_text(id, "disk1") || same_text(id, "disk2") || same_text(
        id,
        "disk3",
    )
}

/// Re-validates a device immediately before a destructive step.
pub fn verify_safe_to_flash(device_path: &str, expected_size: u64) -> (r: Result<
    (),
    SafetyViolation,
>)
    ensures
        r == safety_verdict(device_path@, expected_size),
        r is Ok <==> safe_to_flash(device_path@, expected_size),
{
    let id = disk_id(device_path);
    if is_system_disk(id) {
        return Err(SafetyViolation::SystemDisk);
    }
    if expected_size > MAX_SD_SIZE_BYTES {
        return Err(SafetyViolation::TooLarge);
    }
    if expected_size < MIN_SD_SIZE_BYTES {
        return Err(SafetyViolation::TooSmall);
    }
    Ok(())
}

/// The safety predicate on an enumerated device, evaluated afresh on each call.
pub fn is_safe_to_flash(device: &SDCard) -> (r: bool)
    ensures
        r == safe_to_flash(device.path@, device.size),
{
    verify_safe_to_flash(device.path.as_str(), device.size).is_ok()
}

} // verus!
