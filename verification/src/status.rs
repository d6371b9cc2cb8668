use vstd::prelude::*;
use crate::errors::ErrorKind;

verus! {

// Status codes of the native ESP-IDF flash/OTA driver interface. The values
// are fixed by the platform's ABI; the driver reports exactly one of them
// from each call.
pub const ESP_OK: i32 = 0;
pub const ESP_FAIL: i32 = -1;
pub const ESP_ERR_NO_MEM: i32 = 0x101;
pub const ESP_ERR_INVALID_ARG: i32 = 0x102;
pub const ESP_ERR_INVALID_STATE: i32 = 0x103;
pub const ESP_ERR_INVALID_SIZE: i32 = 0x104;
pub const ESP_ERR_NOT_FOUND: i32 = 0x105;
pub const ESP_ERR_OTA_PARTITION_CONFLICT: i32 = 0x1501;
pub const ESP_ERR_OTA_SELECT_INFO_INVALID: i32 = 0x1502;
pub const ESP_ERR_OTA_VALIDATE_FAILED: i32 = 0x1503;
pub const ESP_ERR_OTA_ROLLBACK_FAILED: i32 = 0x1505;
pub const ESP_ERR_OTA_ROLLBACK_INVALID_STATE: i32 = 0x1506;
pub const ESP_ERR_FLASH_OP_FAIL: i32 = 0x6001;
pub const ESP_ERR_FLASH_OP_TIMEOUT: i32 = 0x6002;

/// What the update manager does with a status code the driver returned.
///
/// `Proceed` means the call succeeded. `Reject` carries the typed error to
/// hand to the caller. `Fatal` marks a code that indicates a programming
/// error (an invalid handle or argument) or a code the driver contract does
/// not allow; such a condition is unrecoverable and the unverified glue that
/// talks to the driver must treat it as fatal rather than return it.
#[derive(Debug, Copy, Clone, PartialEq, Eq, Structural)]
pub enum Decision {
    Proceed,
    Reject(ErrorKind),
    Fatal,
}

/// The decision for a status code returned when a session is begun
/// (partition erase and write-handle allocation).
pub open spec fn begin_decision_spec(code: i32) -> Decision {
    if code == ESP_OK {
        Decision::Proceed
    } else if code == ESP_ERR_NO_MEM {
        Decision::Reject(ErrorKind::AllocFailed)
    } else if code == ESP_ERR_OTA_PARTITION_CONFLICT {
        Decision::Reject(ErrorKind::NoOtaPartition)
    } else if code == ESP_ERR_OTA_SELECT_INFO_INVALID {
        Decision::Reject(ErrorKind::InvalidOtaPartitionData)
    } else if code == ESP_ERR_FLASH_OP_TIMEOUT {
        Decision::Reject(ErrorKind::FlashTimeout)
    } else if code == ESP_ERR_FLASH_OP_FAIL {
        Decision::Reject(ErrorKind::FlashFailed)
    } else if code == ESP_ERR_OTA_ROLLBACK_INVALID_STATE {
        Decision::Reject(ErrorKind::InvalidRollbackState)
    } else {
        Decision::Fatal
    }
}

/// Maps a status code of the driver's session-begin call to a decision.
pub fn begin_decision(code: i32) -> (r: Decision)
    ensures
        r == begin_decision_spec(code),
{
    if code == ESP_OK {
        Decision::Proceed
    } else if code == ESP_ERR_NO_MEM {
        Decision::Reject(ErrorKind::AllocFailed)
    } else if code == ESP_ERR_OTA_PARTITION_CONFLICT {
        Decision::Reject(ErrorKind::NoOtaPartition)
    } else if code == ESP_ERR_OTA_SELECT_INFO_INVALID {
        Decision::Reject(ErrorKind::InvalidOtaPartitionData)
    } else if code == ESP_ERR_FLASH_OP_TIMEOUT {
        Decision::Reject(ErrorKind::FlashTimeout)
    } else if code == ESP_ERR_FLASH_OP_FAIL {
        Decision::Reject(ErrorKind::FlashFailed)
    } else if code == ESP_ERR_OTA_ROLLBACK_INVALID_STATE {
        Decision::Reject(ErrorKind::InvalidRollbackState)
    } else {
        Decision::Fatal
    }
}

/// The decision for a status code returned when a chunk is written.
pub open spec fn write_decision_spec(code: i32) -> Decision {
    if code == ESP_OK {
        Decision::Proceed
    } else if code == ESP_ERR_OTA_VALIDATE_FAILED {
        Decision::Reject(ErrorKind::InvalidMagicByte)
    } else if code == ESP_ERR_FLASH_OP_TIMEOUT {
        Decision::Reject(ErrorKind::FlashTimeout)
    } else if code == ESP_ERR_FLASH_OP_FAIL {
        Decision::Reject(ErrorKind::FlashFailed)
    } else if code == ESP_ERR_OTA_SELECT_INFO_INVALID {
        Decision::Reject(ErrorKind::InvalidOtaPartitionData)
    } else {
        Decision::Fatal
    }
}

/// Maps a status code of the driver's sequential-write call to a decision.
pub fn write_decision(code: i32) -> (r: Decision)
    ensures
        r == write_decision_spec(code),
{
    if code == ESP_OK {
        Decision::Proceed
    } else if code == ESP_ERR_OTA_VALIDATE_FAILED {
        Decision::Reject(ErrorKind::InvalidMagicByte)
    } else if code == ESP_ERR_FLASH_OP_TIMEOUT {
        Decision::Reject(ErrorKind::FlashTimeout)
    } else if code == ESP_ERR_FLASH_OP_FAIL {
        Decision::Reject(ErrorKind::FlashFailed)
    } else if code == ESP_ERR_OTA_SELECT_INFO_INVALID {
        Decision::Reject(ErrorKind::InvalidOtaPartitionData)
    } else {
        Decision::Fatal
    }
}

/// The decision for a status code returned when a session is finalized
/// (image validation and write-handle release).
pub open spec fn finalize_decision_spec(code: i32) -> Decision {
    if code == ESP_OK {
        Decision::Proceed
    } else if code == ESP_ERR_INVALID_ARG {
        Decision::Reject(ErrorKind::NothingWritten)
    } else if code == ESP_ERR_OTA_VALIDATE_FAILED {
        Decision::Reject(ErrorKind::InvalidImage)
    } else if code == ESP_ERR_INVALID_STATE {
        Decision::Reject(ErrorKind::WritingEncryptedFailed)
    } else {
        Decision::Fatal
    }
}

/// Maps a status code of the driver's session-finalize call to a decision.
pub fn finalize_decision(code: i32) -> (r: Decision)
    ensures
        r == finalize_decision_spec(code),
{
    if code == ESP_OK {
        Decision::Proceed
    } else if code == ESP_ERR_INVALID_ARG {
        Decision::Reject(ErrorKind::NothingWritten)
    } else if code == ESP_ERR_OTA_VALIDATE_FAILED {
        Decision::Reject(ErrorKind::InvalidImage)
    } else if code == ESP_ERR_INVALID_STATE {
        Decision::Reject(ErrorKind::WritingEncryptedFailed)
    } else {
        Decision::Fatal
    }
}

/// The decision for a status code returned when the boot target is rewritten.
pub open spec fn set_boot_decision_spec(code: i32) -> Decision {
    if code == ESP_OK {
        Decision::Proceed
    } else if code == ESP_ERR_OTA_VALIDATE_FAILED {
        Decision::Reject(ErrorKind::InvalidImage)
    } else if code == ESP_ERR_FLASH_OP_TIMEOUT {
        Decision::Reject(ErrorKind::FlashTimeout)
    } else if code == ESP_ERR_FLASH_OP_FAIL {
        Decision::Reject(ErrorKind::FlashFailed)
    } else {
        Decision::Fatal
    }
}

/// Maps a status code of the driver's boot-target-update call to a decision.
pub fn set_boot_decision(code: i32) -> (r: Decision)
    ensures
        r == set_boot_decision_spec(code),
{
    if code == ESP_OK {
        Decision::Proceed
    } else if code == ESP_ERR_OTA_VALIDATE_FAILED {
        Decision::Reject(ErrorKind::InvalidImage)
    } else if code == ESP_ERR_FLASH_OP_TIMEOUT {
        Decision::Reject(ErrorKind::FlashTimeout)
    } else if code == ESP_ERR_FLASH_OP_FAIL {
        Decision::Reject(ErrorKind::FlashFailed)
    } else {
        Decision::Fatal
    }
}

/// The decision for a status code returned by the self-validation call that
/// confirms the running image. The driver contract allows only success; any
/// other code is a programming error.
pub open spec fn mark_valid_decision_spec(code: i32) -> Decision {
    if code == ESP_OK {
        Decision::Proceed
    } else {
        Decision::Fatal
    }
}

/// Maps a status code of the driver's confirm-running-image call to a
/// decision.
pub fn mark_valid_decision(code: i32) -> (r: Decision)
    ensures
        r == mark_valid_decision_spec(code),
{
    if code == ESP_OK {
        Decision::Proceed
    } else {
        Decision::Fatal
    }
}

/// The decision for a status code returned by the rollback call. On success
/// the rollback call restarts the device and never returns, so a returned
/// `ESP_OK` — like every unexpected code — is fatal.
pub open spec fn rollback_decision_spec(code: i32) -> Decision {
    if code == ESP_FAIL {
        Decision::Reject(ErrorKind::RollbackFailed)
    } else if code == ESP_ERR_OTA_ROLLBACK_FAILED {
        Decision::Reject(ErrorKind::RollbackFailedNoApps)
    } else {
        Decision::Fatal
    }
}

/// Maps a status code of the driver's rollback call to a decision.
pub fn rollback_decision(code: i32) -> (r: Decision)
    ensures
        r == rollback_decision_spec(code),
{
    if code == ESP_FAIL {
        Decision::Reject(ErrorKind::RollbackFailed)
    } else if code == ESP_ERR_OTA_ROLLBACK_FAILED {
        Decision::Reject(ErrorKind::RollbackFailedNoApps)
    } else {
        Decision::Fatal
    }
}

} // verus!
