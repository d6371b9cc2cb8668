use vstd::prelude::*;

verus! {

/// The kind of failure reported by an OTA operation, matchable by callers.
#[derive(Debug, Copy, Clone, PartialEq, Eq, Structural)]
#[non_exhaustive]
pub enum ErrorKind {
    /// No suitable partition for writing an OTA update to was found.
    NoOtaPartition,
    /// Cannot allocate memory for the OTA operation.
    AllocFailed,
    /// Rollback is enabled, but the currently running application is still
    /// pending validation. It must confirm itself before a new image is
    /// flashed.
    InvalidRollbackState,
    /// The first byte of the image is not the expected app image magic byte.
    InvalidMagicByte,
    /// A flash operation timed out.
    FlashTimeout,
    /// A flash operation failed.
    FlashFailed,
    /// The persistent boot-selection data has invalid contents.
    InvalidOtaPartitionData,
    /// The update session was finalized before any image bytes were written.
    NothingWritten,
    /// The written OTA image is not a valid app image.
    InvalidImage,
    /// Internal error writing the final encrypted bytes to flash.
    WritingEncryptedFailed,
    /// The rollback failed.
    RollbackFailed,
    /// Rollback is not possible: the flash holds no other valid app.
    RollbackFailedNoApps,
}

impl ErrorKind {
    /// The human-readable description of this kind of failure.
    pub open spec fn message_spec(self) -> Seq<char> {
        match self {
            ErrorKind::NoOtaPartition => "No suitable partition for writing OTA update to found"@,
            ErrorKind::AllocFailed => "Cannot allocate memory for OTA operation"@,
            ErrorKind::InvalidRollbackState => "Rollback enabled, but the currently running application is still pending"@,
            ErrorKind::InvalidMagicByte => "First byte of image contains invalid app image magic byte"@,
            ErrorKind::FlashTimeout => "Flash write operation timed out"@,
            ErrorKind::FlashFailed => "Flash write operation failed"@,
            ErrorKind::InvalidOtaPartitionData => "OTA data partition has invalid contents"@,
            ErrorKind::NothingWritten => "OtaUpdate was never written to"@,
            ErrorKind::InvalidImage => "OTA image is invalid"@,
            ErrorKind::WritingEncryptedFailed => "Internal error writing the final encrypted bytes to flash"@,
            ErrorKind::RollbackFailed => "The rollback failed"@,
            ErrorKind::RollbackFailedNoApps => "The rollback is not possible due to flash does not have any apps"@,
        }
    }

    /// Returns the human-readable description of this kind of failure.
    pub fn message(&self) -> (r: &'static str)
        ensures
            r@ == self.message_spec(),
    {
        match self {
            ErrorKind::NoOtaPartition => "No suitable partition for writing OTA update to found",
            ErrorKind::AllocFailed => "Cannot allocate memory for OTA operation",
            ErrorKind::InvalidRollbackState => "Rollback enabled, but the currently running application is still pending",
            ErrorKind::InvalidMagicByte => "First byte of image contains invalid app image magic byte",
            ErrorKind::FlashTimeout => "Flash write operation timed out",
            ErrorKind::FlashFailed => "Flash write operation failed",
            ErrorKind::InvalidOtaPartitionData => "OTA data partition has invalid contents",
            ErrorKind::NothingWritten => "OtaUpdate was never written to",
            ErrorKind::InvalidImage => "OTA image is invalid",
            ErrorKind::WritingEncryptedFailed => "Internal error writing the final encrypted bytes to flash",
            ErrorKind::RollbackFailed => "The rollback failed",
            ErrorKind::RollbackFailedNoApps => "The rollback is not possible due to flash does not have any apps",
        }
    }
}

/// An error that can happen during an OTA operation.
#[derive(Debug)]
pub struct Error {
    kind: ErrorKind,
}

impl Error {
    /// The kind of failure this error carries.
    pub closed spec fn kind_spec(&self) -> ErrorKind {
        self.kind
    }

    /// Wraps a kind of failure as an error value.
    pub fn from_kind(kind: ErrorKind) -> (r: Self)
        ensures
            r.kind_spec() == kind,
    {
        Self { kind }
    }

    /// Returns the kind of error as an enum, that can be matched on.
    pub fn kind(&self) -> (r: ErrorKind)
        ensures
            r == self.kind_spec(),
    {
        self.kind
    }

    /// Returns the human-readable description of this error.
    pub fn message(&self) -> (r: &'static str)
        ensures
            r@ == self.kind_spec().message_spec(),
    {
        self.kind.message()
    }
}

} // verus!
