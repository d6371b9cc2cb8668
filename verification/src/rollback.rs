use vstd::prelude::*;
use crate::device::{BootSelection, Device, ImageState};
use crate::errors::{Error, ErrorKind};

verus! {

/// `mark_app_valid` has something to clear: the running image is the
/// selected boot image and it has not yet confirmed itself.
pub open spec fn mark_app_valid_acts(dev: Device) -> bool {
    dev.boot_sel.pending_validation && dev.boot_sel.partition == dev.running
}

/// Indicates that the currently running app works: records the running
/// image as valid and clears the pending-validation flag, cancelling any
/// scheduled automatic rollback. Idempotent and infallible: when nothing is
/// pending for the running image, the whole device state is left unchanged,
/// so calling it again — or on a device with nothing to confirm — is a
/// no-op, never an error.
pub fn mark_app_valid(dev: &mut Device)
    requires
        old(dev).wf(),
    ensures
        final(dev).wf(),
        mark_app_valid_acts(*old(dev)) ==> {
            &&& final(dev).img@ == old(dev).img@.update(
                old(dev).running as int,
                ImageState::Valid,
            )
            &&& final(dev).boot_sel == (BootSelection {
                partition: old(dev).boot_sel.partition,
                pending_validation: false,
            })
            &&& final(dev).parts == old(dev).parts
            &&& final(dev).data == old(dev).data
            &&& final(dev).running == old(dev).running
            &&& final(dev).session == old(dev).session
            &&& final(dev).fault == old(dev).fault
        },
        !mark_app_valid_acts(*old(dev)) ==> *final(dev) == *old(dev),
        !mark_app_valid_acts(*final(dev)),
{
    if dev.boot_sel.pending_validation && dev.boot_sel.partition == dev.running {
        let r = dev.running;
        dev.img.set(r, ImageState::Valid);
        dev.boot_sel = BootSelection { partition: r, pending_validation: false };
    }
}

/// Partition `q` is an image the device could roll back to: some partition
/// other than the running one whose image is recorded as confirmed valid.
pub open spec fn rollback_candidate(dev: Device, q: int) -> bool {
    &&& 0 <= q < dev.len()
    &&& q != dev.running as int
    &&& dev.img@[q] is Valid
}

/// The failure `rollback_and_reboot` reports, if any: a driver or
/// boot-selection store failure, or no previous known-good image to roll
/// back to.
pub open spec fn rollback_error(dev: Device) -> Option<ErrorKind> {
    if dev.fault is Some {
        Some(ErrorKind::RollbackFailed)
    } else if !(exists|q: int| rollback_candidate(dev, q)) {
        Some(ErrorKind::RollbackFailedNoApps)
    } else {
        None
    }
}

/// Marks the running image invalid, switches the boot selection back to the
/// previous known-good image and reboots into it. The boot-selection store
/// keeps no boot history, only each partition's image record, so the
/// previous good image is represented as the lowest-indexed partition
/// holding a confirmed-valid image; with at most one other valid image —
/// the usual layout — that is exactly the image that was running before the
/// update. The reboot is this model's
/// simulated restart: on success the device is already running the
/// rolled-back image when the call returns. On failure control returns with
/// the device — in particular the boot selection — fully unchanged.
pub fn rollback_and_reboot(dev: &mut Device) -> (r: Result<(), Error>)
    requires
        old(dev).wf(),
    ensures
        final(dev).wf(),
        r is Ok <==> rollback_error(*old(dev)) is None,
        match r {
            Ok(_) => {
                &&& rollback_candidate(*old(dev), final(dev).running as int)
                &&& forall|q: int|
                    rollback_candidate(*old(dev), q) ==> final(dev).running as int <= q
                &&& final(dev).boot_sel == (BootSelection {
                    partition: final(dev).running,
                    pending_validation: false,
                })
                &&& final(dev).img@ == old(dev).img@.update(
                    old(dev).running as int,
                    ImageState::Invalid,
                )
                &&& final(dev).parts == old(dev).parts
                &&& final(dev).data == old(dev).data
                &&& final(dev).session == old(dev).session
                &&& final(dev).fault == old(dev).fault
            },
            Err(e) => {
                &&& rollback_error(*old(dev)) == Some(e.kind_spec())
                &&& *final(dev) == *old(dev)
            },
        },
{
    if dev.fault.is_some() {
        return Err(Error::from_kind(ErrorKind::RollbackFailed));
    }
    let n = dev.parts.len();
    let mut q: usize = 0;
    while q < n
        invariant
            old(dev).wf(),
            old(dev).fault is None,
            *dev == *old(dev),
            n == dev.parts@.len(),
            q <= n,
            forall|j: int| 0 <= j < q ==> !rollback_candidate(*old(dev), j),
        decreases n - q,
    {
        if q != dev.running && dev.img[q] == ImageState::Valid {
            proof {
                assert(rollback_candidate(*old(dev), q as int));
            }
            let r = dev.running;
            dev.img.set(r, ImageState::Invalid);
            dev.boot_sel = BootSelection { partition: q, pending_validation: false };
            dev.running = q;
            return Ok(());
        }
        q += 1;
    }
    Err(Error::from_kind(ErrorKind::RollbackFailedNoApps))
}

} // verus!
