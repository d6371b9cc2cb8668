//! Firmware over-the-air (OTA) update manager for dual/multi-partition devices.
//!
//! The crate drives the full lifecycle of a firmware update: choosing a spare
//! partition, streaming the candidate image to it, validating the completed
//! image, atomically switching the boot target, and confirming or rolling back
//! the running image after the next boot.
//!
//! All persistent device state (partition table, partition contents, boot
//! selection) is modelled by [`device::Device`], an in-memory store with the
//! same atomic read/write interface a flash-backed store provides, so the
//! whole protocol can be exercised and checked without hardware. The mapping
//! from the native flash driver's status codes to this crate's error taxonomy
//! lives in [`status`].

pub mod device;
pub mod errors;
pub mod rollback;
pub mod session;
pub mod status;

pub use device::{BootSelection, Device, Fault, ImageState, Partition};
pub use errors::{Error, ErrorKind};
pub use rollback::{mark_app_valid, rollback_and_reboot};
pub use session::{apply_update, CompletedOtaUpdate, OtaUpdate};
