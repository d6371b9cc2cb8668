use vstd::prelude::*;
use crate::device::{
    valid_image, BootSelection, Device, Fault, ImageState, Partition, APP_IMAGE_HEADER_LEN,
    APP_IMAGE_MAGIC,
};
use crate::errors::{Error, ErrorKind};

verus! {

/// Concatenation of a sequence of byte chunks, in order.
pub open spec fn concat_bytes(chunks: Seq<Seq<u8>>) -> Seq<u8>
    decreases chunks.len(),
{
    if chunks.len() == 0 {
        Seq::empty()
    } else {
        concat_bytes(chunks.drop_last()) + chunks.last()
    }
}

/// The failure `write` reports for a session whose staged image has the
/// given length and failed flag, writing to a partition of the given size
/// on a device with the given fault, if any: a session whose format check
/// already failed accepts nothing more; then driver faults; then the
/// image-format check on the very first bytes; a chunk past the partition's
/// end is a driver write failure.
pub open spec fn chunk_error(
    staged_len: int,
    failed: bool,
    size: int,
    fault: Option<Fault>,
    chunk: Seq<u8>,
) -> Option<ErrorKind> {
    if failed {
        Some(ErrorKind::InvalidMagicByte)
    } else if fault == Some(Fault::FlashTimeout) {
        Some(ErrorKind::FlashTimeout)
    } else if fault == Some(Fault::FlashFailed) {
        Some(ErrorKind::FlashFailed)
    } else if fault == Some(Fault::SelectData) {
        Some(ErrorKind::InvalidOtaPartitionData)
    } else if staged_len == 0 && chunk.len() > 0 && chunk[0] != APP_IMAGE_MAGIC {
        Some(ErrorKind::InvalidMagicByte)
    } else if staged_len + chunk.len() > size {
        Some(ErrorKind::FlashFailed)
    } else {
        None
    }
}

/// The first failure `write` reports when the chunks are submitted in order
/// to such a session, if any: each accepted chunk advances the staged
/// length by its own length and leaves the failed flag untouched.
pub open spec fn chunks_error(
    staged_len: int,
    failed: bool,
    size: int,
    fault: Option<Fault>,
    chunks: Seq<Seq<u8>>,
) -> Option<ErrorKind>
    decreases chunks.len(),
{
    if chunks.len() == 0 {
        None
    } else if chunk_error(staged_len, failed, size, fault, chunks.first()) is Some {
        chunk_error(staged_len, failed, size, fault, chunks.first())
    } else {
        chunks_error(staged_len + chunks.first().len(), failed, size, fault, chunks.drop_first())
    }
}

/// The failure `finalize` reports for a session with the given staged image
/// and failed flag, if any: a session nothing was ever written to is a
/// caller error; then the integrity check over the full written range; then
/// the driver's encryption finalization.
pub open spec fn finalize_failure(staged: Seq<u8>, failed: bool, fault: Option<Fault>) -> Option<
    ErrorKind,
> {
    if staged.len() == 0 {
        Some(ErrorKind::NothingWritten)
    } else if failed || !valid_image(staged) {
        Some(ErrorKind::InvalidImage)
    } else if fault == Some(Fault::Encryption) {
        Some(ErrorKind::WritingEncryptedFailed)
    } else {
        None
    }
}

/// An ongoing OTA update: one in-progress write of a candidate image to the
/// partition chosen at [`OtaUpdate::begin`].
///
/// The session owns the driver's write cursor, modelled as the staged bytes
/// accepted so far; they become readable from the partition when the session
/// is finalized. A session that is not finalized must be released with
/// [`OtaUpdate::abort`], which leaves the partition without a selectable
/// image.
#[derive(Debug)]
pub struct OtaUpdate {
    /// The partition the candidate image is written to.
    pub partition: Partition,
    /// Bytes accepted so far, in submission order; the write cursor stands
    /// at their end. Installed into the partition on finalize.
    pub staged: Vec<u8>,
    /// The image-format check rejected the first bytes; the session can no
    /// longer accept writes or finalize.
    pub failed: bool,
}

/// A successfully validated image, bound to the partition it was written
/// to. Produced only by [`OtaUpdate::finalize`]; consumed by
/// [`CompletedOtaUpdate::set_as_boot_partition`] or simply dropped (leaving
/// the image written but not selected for boot).
#[derive(Debug)]
pub struct CompletedOtaUpdate {
    /// The partition holding the validated image.
    pub partition: Partition,
}

impl OtaUpdate {
    /// Index of the bound partition.
    pub open spec fn idx(self) -> int {
        self.partition.index as int
    }

    /// The session is the one open on `dev`: the device's single session
    /// slot names its partition, the partition entry is the table's, the
    /// staged bytes fit the partition (whose readable contents are still
    /// erased), and while the format check has not failed a non-empty
    /// staged image starts with the magic byte.
    pub open spec fn bound_to(self, dev: Device) -> bool {
        &&& dev.wf()
        &&& dev.session == Some(self.partition.index)
        &&& dev.parts@[self.idx()] == self.partition
        &&& dev.part_bytes(self.idx()).len() == 0
        &&& self.staged@.len() <= self.partition.size
        &&& (!self.failed && self.staged@.len() > 0 ==> self.staged@[0] == APP_IMAGE_MAGIC)
    }

    /// The failure `begin` reports on this device, if any, in the order the
    /// driver checks: no partition to hand out (none eligible, or a session
    /// already open), then resource allocation, then the refusal to start
    /// while the running image is itself unconfirmed, then the
    /// boot-selection data and the erase itself.
    pub open spec fn begin_error(dev: Device) -> Option<ErrorKind> {
        if dev.session is Some || !(exists|j: int| dev.eligible(j)) {
            Some(ErrorKind::NoOtaPartition)
        } else if dev.fault == Some(Fault::Alloc) {
            Some(ErrorKind::AllocFailed)
        } else if dev.img@[dev.running as int] is Pending {
            Some(ErrorKind::InvalidRollbackState)
        } else if dev.fault == Some(Fault::SelectData) {
            Some(ErrorKind::InvalidOtaPartitionData)
        } else if dev.fault == Some(Fault::FlashTimeout) {
            Some(ErrorKind::FlashTimeout)
        } else if dev.fault == Some(Fault::FlashFailed) {
            Some(ErrorKind::FlashFailed)
        } else {
            None
        }
    }

    /// Starts an OTA update to the next OTA-eligible partition, found
    /// round-robin after the currently running partition. The chosen
    /// partition is erased and the single session slot is taken, so a
    /// second `begin` while a session is open fails rather than alias an
    /// open session's partition; the boot selection is never touched.
    pub fn begin(dev: &mut Device) -> (r: Result<OtaUpdate, Error>)
        requires
            old(dev).wf(),
        ensures
            final(dev).wf(),
            final(dev).boot_sel == old(dev).boot_sel,
            final(dev).parts == old(dev).parts,
            final(dev).running == old(dev).running,
            final(dev).fault == old(dev).fault,
            r is Ok <==> Self::begin_error(*old(dev)) is None,
            match r {
                Ok(s) => {
                    &&& s.bound_to(*final(dev))
                    &&& s.staged@.len() == 0
                    &&& !s.failed
                    &&& old(dev).eligible(s.idx())
                    &&& s.idx() == old(dev).rr_selected()
                    &&& forall|j: int|
                        old(dev).eligible(j) ==> old(dev).rr_distance(s.idx()) <= old(
                            dev,
                        ).rr_distance(j)
                    &&& final(dev).session == Some(s.partition.index)
                    &&& final(dev).data@.len() == old(dev).data@.len()
                    &&& final(dev).part_bytes(s.idx()).len() == 0
                    &&& forall|j: int|
                        0 <= j < old(dev).len() && j != s.idx() ==> final(dev).data@[j] == old(
                            dev,
                        ).data@[j]
                    &&& final(dev).img@ == old(dev).img@.update(s.idx(), ImageState::Absent)
                },
                Err(e) => {
                    &&& Self::begin_error(*old(dev)) == Some(e.kind_spec())
                    &&& *final(dev) == *old(dev)
                },
            },
    {
        let p = match dev.next_update_partition() {
            Ok(p) => p,
            Err(e) => {
                return Err(e);
            },
        };
        match dev.fault {
            Some(Fault::Alloc) => {
                return Err(Error::from_kind(ErrorKind::AllocFailed));
            },
            _ => {},
        }
        if dev.img[dev.running] == ImageState::Pending {
            return Err(Error::from_kind(ErrorKind::InvalidRollbackState));
        }
        match dev.fault {
            Some(Fault::SelectData) => {
                return Err(Error::from_kind(ErrorKind::InvalidOtaPartitionData));
            },
            Some(Fault::FlashTimeout) => {
                return Err(Error::from_kind(ErrorKind::FlashTimeout));
            },
            Some(Fault::FlashFailed) => {
                return Err(Error::from_kind(ErrorKind::FlashFailed));
            },
            _ => {},
        }
        let i = p.index;
        dev.data.set(i, Vec::new());
        dev.img.set(i, ImageState::Absent);
        dev.session = Some(i);
        Ok(OtaUpdate { partition: p, staged: Vec::new(), failed: false })
    }

    /// The failure `write` reports for this session, device and chunk, if
    /// any.
    pub open spec fn write_error(self, dev: Device, chunk: Seq<u8>) -> Option<ErrorKind> {
        chunk_error(
            self.staged@.len() as int,
            self.failed,
            self.partition.size as int,
            dev.fault,
            chunk,
        )
    }

    /// Appends `chunk` at the write cursor, advancing it by the chunk's
    /// length; chunks are kept in exactly the order submitted. If the very
    /// first bytes do not carry the expected image magic the chunk is
    /// refused with `InvalidMagicByte` and the session becomes unusable for
    /// further writes. The device — in particular the boot selection — is
    /// never changed.
    pub fn write(&mut self, dev: &Device, chunk: &[u8]) -> (r: Result<(), Error>)
        requires
            old(self).bound_to(*dev),
        ensures
            final(self).bound_to(*dev),
            final(self).partition == old(self).partition,
            r is Ok <==> old(self).write_error(*dev, chunk@) is None,
            match r {
                Ok(_) => {
                    &&& final(self).staged@ == old(self).staged@ + chunk@
                    &&& !final(self).failed
                    &&& !old(self).failed
                },
                Err(e) => {
                    &&& old(self).write_error(*dev, chunk@) == Some(e.kind_spec())
                    &&& final(self).staged == old(self).staged
                    &&& final(self).failed == (old(self).failed || e.kind_spec()
                        == ErrorKind::InvalidMagicByte)
                },
            },
    {
        if self.failed {
            return Err(Error::from_kind(ErrorKind::InvalidMagicByte));
        }
        match dev.fault {
            Some(Fault::FlashTimeout) => {
                return Err(Error::from_kind(ErrorKind::FlashTimeout));
            },
            Some(Fault::FlashFailed) => {
                return Err(Error::from_kind(ErrorKind::FlashFailed));
            },
            Some(Fault::SelectData) => {
                return Err(Error::from_kind(ErrorKind::InvalidOtaPartitionData));
            },
            _ => {},
        }
        if self.staged.len() == 0 && chunk.len() > 0 && chunk[0] != APP_IMAGE_MAGIC {
            self.failed = true;
            return Err(Error::from_kind(ErrorKind::InvalidMagicByte));
        }
        if chunk.len() > self.partition.size - self.staged.len() {
            return Err(Error::from_kind(ErrorKind::FlashFailed));
        }
        let ghost orig = self.staged@;
        let mut k: usize = 0;
        while k < chunk.len()
            invariant
                k <= chunk@.len(),
                self.staged@ == orig + chunk@.subrange(0, k as int),
                self.partition == old(self).partition,
                self.failed == old(self).failed,
            decreases chunk@.len() - k,
        {
            self.staged.push(chunk[k]);
            k += 1;
        }
        proof {
            assert(chunk@.subrange(0, chunk@.len() as int) =~= chunk@);
        }
        Ok(())
    }

    /// The failure `write_all` reports for this session, device and chunk
    /// sequence, if any: the first failure `write` reports when the chunks
    /// are submitted in order.
    pub open spec fn write_all_error(self, dev: Device, chunks: Seq<Seq<u8>>) -> Option<
        ErrorKind,
    > {
        chunks_error(
            self.staged@.len() as int,
            self.failed,
            self.partition.size as int,
            dev.fault,
            chunks,
        )
    }

    /// Appends each chunk of `chunks` in order, stopping at the first
    /// failure. It succeeds exactly when every chunk in turn would be
    /// accepted by `write`; the staged image then has grown by exactly the
    /// concatenation of the chunks in submission order and the session is
    /// as usable as before. On failure the reported kind is the first
    /// failing chunk's, and the staged image has grown by the concatenation
    /// of the chunks accepted before it.
    pub fn write_all(&mut self, dev: &Device, chunks: &Vec<Vec<u8>>) -> (r: Result<(), Error>)
        requires
            old(self).bound_to(*dev),
        ensures
            final(self).bound_to(*dev),
            final(self).partition == old(self).partition,
            r is Ok <==> old(self).write_all_error(*dev, chunks@.map_values(|c: Vec<u8>| c@))
                is None,
            r is Ok ==> {
                &&& final(self).staged@ == old(self).staged@ + concat_bytes(
                    chunks@.map_values(|c: Vec<u8>| c@),
                )
                &&& final(self).failed == old(self).failed
            },
            r matches Err(e) ==> {
                &&& old(self).write_all_error(*dev, chunks@.map_values(|c: Vec<u8>| c@)) == Some(
                    e.kind_spec(),
                )
                &&& final(self).failed == (old(self).failed || e.kind_spec()
                    == ErrorKind::InvalidMagicByte)
                &&& exists|k: int|
                    #![trigger chunks@[k]]
                    0 <= k < chunks@.len() && final(self).staged@ == old(self).staged@
                        + concat_bytes(chunks@.map_values(|c: Vec<u8>| c@).subrange(0, k))
            },
    {
        let ghost all = chunks@.map_values(|c: Vec<u8>| c@);
        let ghost base = self.staged@;
        proof {
            assert(all.subrange(0, all.len() as int) =~= all);
        }
        let mut k: usize = 0;
        while k < chunks.len()
            invariant
                k <= chunks@.len(),
                all == chunks@.map_values(|c: Vec<u8>| c@),
                self.bound_to(*dev),
                self.partition == old(self).partition,
                self.failed == old(self).failed,
                base == old(self).staged@,
                self.staged@ == base + concat_bytes(all.subrange(0, k as int)),
                old(self).write_all_error(*dev, all) == chunks_error(
                    self.staged@.len() as int,
                    self.failed,
                    self.partition.size as int,
                    dev.fault,
                    all.subrange(k as int, all.len() as int),
                ),
            decreases chunks@.len() - k,
        {
            let ghost before = *self;
            let ghost rest = all.subrange(k as int, all.len() as int);
            proof {
                assert(rest.first() == all[k as int]);
            }
            match self.write(dev, chunks[k].as_slice()) {
                Ok(_) => {},
                Err(e) => {
                    proof {
                        assert(old(self).write_all_error(*dev, all) == Some(e.kind_spec()));
                        assert(0 <= k < all.len() && self.staged@ == base + concat_bytes(
                            all.subrange(0, k as int),
                        ));
                    }
                    return Err(e);
                },
            }
            proof {
                assert(all.subrange(0, k + 1).drop_last() =~= all.subrange(0, k as int));
                assert(all.subrange(0, k + 1).last() == chunks@[k as int]@);
                assert(self.staged@ == before.staged@ + chunks@[k as int]@);
                assert(rest.drop_first() =~= all.subrange(k + 1, all.len() as int));
            }
            k += 1;
        }
        proof {
            assert(all.subrange(0, all.len() as int) =~= all);
            assert(all.subrange(all.len() as int, all.len() as int) =~= Seq::<Seq<u8>>::empty());
        }
        Ok(())
    }

    /// Number of bytes written to the session so far.
    pub fn written(&self) -> (r: usize)
        ensures
            r == self.staged@.len(),
    {
        self.staged.len()
    }

    /// The failure `finalize` reports for this session and device, if any.
    pub open spec fn finalize_error(self, dev: Device) -> Option<ErrorKind> {
        finalize_failure(self.staged@, self.failed, dev.fault)
    }

    /// Finishes the update and validates the written image. The session is
    /// consumed on every path and the session slot released; only on
    /// success does the partition hold the staged image, recorded as a
    /// complete, not-yet-selected image and returned as a
    /// [`CompletedOtaUpdate`]. A session with zero bytes written always
    /// fails with `NothingWritten`; on failure the partition keeps no
    /// selectable image. The boot selection is never touched.
    pub fn finalize(self, dev: &mut Device) -> (r: Result<CompletedOtaUpdate, Error>)
        requires
            self.bound_to(*old(dev)),
        ensures
            final(dev).wf(),
            final(dev).session is None,
            final(dev).boot_sel == old(dev).boot_sel,
            final(dev).parts == old(dev).parts,
            final(dev).running == old(dev).running,
            final(dev).fault == old(dev).fault,
            final(dev).data@.len() == old(dev).data@.len(),
            r is Ok <==> self.finalize_error(*old(dev)) is None,
            match r {
                Ok(c) => {
                    &&& c.partition == self.partition
                    &&& c.fits(*final(dev))
                    &&& valid_image(self.staged@)
                    &&& final(dev).part_bytes(self.idx()) == self.staged@
                    &&& valid_image(final(dev).part_bytes(self.idx()))
                    &&& forall|j: int|
                        0 <= j < old(dev).len() && j != self.idx() ==> final(dev).data@[j] == old(
                            dev,
                        ).data@[j]
                    &&& final(dev).img@ == old(dev).img@.update(self.idx(), ImageState::New)
                },
                Err(e) => {
                    &&& self.finalize_error(*old(dev)) == Some(e.kind_spec())
                    &&& final(dev).data == old(dev).data
                    &&& final(dev).img == old(dev).img
                    &&& final(dev).part_bytes(self.idx()).len() == 0
                    &&& final(dev).img@[self.idx()] is Absent
                },
            },
    {
        let i = self.partition.index;
        dev.session = None;
        if self.staged.len() == 0 {
            return Err(Error::from_kind(ErrorKind::NothingWritten));
        }
        if self.failed || self.staged.len() < APP_IMAGE_HEADER_LEN {
            return Err(Error::from_kind(ErrorKind::InvalidImage));
        }
        match dev.fault {
            Some(Fault::Encryption) => {
                return Err(Error::from_kind(ErrorKind::WritingEncryptedFailed));
            },
            _ => {},
        }
        let OtaUpdate { partition, staged, failed: _ } = self;
        dev.data.set(i, staged);
        dev.img.set(i, ImageState::New);
        Ok(CompletedOtaUpdate { partition })
    }

    /// Releases an abandoned session without finalizing: the best-effort
    /// abort every exit route other than `finalize` must take. The session
    /// slot is freed; the partition keeps no bytes and no selectable image,
    /// and the boot selection — like all other device state — is unchanged,
    /// so the bootloader can never select the abandoned write target.
    pub fn abort(self, dev: &mut Device)
        requires
            self.bound_to(*old(dev)),
        ensures
            final(dev).wf(),
            final(dev).session is None,
            final(dev).boot_sel == old(dev).boot_sel,
            final(dev).parts == old(dev).parts,
            final(dev).data == old(dev).data,
            final(dev).img == old(dev).img,
            final(dev).running == old(dev).running,
            final(dev).fault == old(dev).fault,
            final(dev).part_bytes(self.idx()).len() == 0,
            final(dev).img@[self.idx()] is Absent,
    {
        dev.session = None;
    }

    /// The partition that the new app is being written to.
    pub fn raw_partition(&self) -> (r: Partition)
        ensures
            r == self.partition,
    {
        self.partition
    }
}

impl CompletedOtaUpdate {
    /// Index of the partition holding the validated image.
    pub open spec fn idx(self) -> int {
        self.partition.index as int
    }

    /// The committed update belongs to this device's partition table.
    pub open spec fn fits(self, dev: Device) -> bool {
        &&& self.idx() < dev.len()
        &&& dev.parts@[self.idx()] == self.partition
    }

    /// The failure `set_as_boot_partition` reports, if any: the backing
    /// store re-validates and rejects a partition that no longer records a
    /// complete image (for instance one a later session has erased); then
    /// the atomic write of the boot-selection record itself.
    pub open spec fn set_boot_error(self, dev: Device) -> Option<ErrorKind> {
        if !(dev.img@[self.idx()] is New || dev.img@[self.idx()] is Pending) {
            Some(ErrorKind::InvalidImage)
        } else if dev.fault == Some(Fault::FlashTimeout) {
            Some(ErrorKind::FlashTimeout)
        } else if dev.fault == Some(Fault::FlashFailed) {
            Some(ErrorKind::FlashFailed)
        } else {
            None
        }
    }

    /// Atomically rewrites the persistent boot selection: the committed
    /// partition becomes the next-boot target, marked pending-validation.
    /// On failure the boot selection is fully unchanged — never a mixed
    /// record.
    pub fn set_as_boot_partition(&mut self, dev: &mut Device) -> (r: Result<(), Error>)
        requires
            old(dev).wf(),
            old(self).fits(*old(dev)),
        ensures
            *final(self) == *old(self),
            final(dev).wf(),
            final(self).fits(*final(dev)),
            final(dev).parts == old(dev).parts,
            final(dev).data == old(dev).data,
            final(dev).running == old(dev).running,
            final(dev).session == old(dev).session,
            final(dev).fault == old(dev).fault,
            r is Ok <==> old(self).set_boot_error(*old(dev)) is None,
            match r {
                Ok(_) => {
                    &&& final(dev).boot_sel == (BootSelection {
                        partition: old(self).partition.index,
                        pending_validation: true,
                    })
                    &&& final(dev).img@ == old(dev).img@.update(
                        old(self).idx(),
                        ImageState::Pending,
                    )
                },
                Err(e) => {
                    &&& old(self).set_boot_error(*old(dev)) == Some(e.kind_spec())
                    &&& *final(dev) == *old(dev)
                },
            },
    {
        let i = self.partition.index;
        let state = dev.img[i];
        if !(state == ImageState::New || state == ImageState::Pending) {
            return Err(Error::from_kind(ErrorKind::InvalidImage));
        }
        match dev.fault {
            Some(Fault::FlashTimeout) => {
                return Err(Error::from_kind(ErrorKind::FlashTimeout));
            },
            Some(Fault::FlashFailed) => {
                return Err(Error::from_kind(ErrorKind::FlashFailed));
            },
            _ => {},
        }
        dev.img.set(i, ImageState::Pending);
        dev.boot_sel = BootSelection { partition: i, pending_validation: true };
        Ok(())
    }

    /// Restarts the device (simulated): the next boot loads the selected
    /// boot partition, so the running partition becomes the boot target. If
    /// `set_as_boot_partition` completed successfully beforehand, the
    /// device boots into the newly written app. Nothing else changes.
    pub fn restart(self, dev: &mut Device)
        requires
            old(dev).wf(),
        ensures
            final(dev).wf(),
            final(dev).running == old(dev).boot_sel.partition,
            final(dev).parts == old(dev).parts,
            final(dev).data == old(dev).data,
            final(dev).img == old(dev).img,
            final(dev).boot_sel == old(dev).boot_sel,
            final(dev).session == old(dev).session,
            final(dev).fault == old(dev).fault,
    {
        dev.running = dev.boot_sel.partition;
    }

    /// The partition that the new app was written to.
    pub fn raw_partition(&self) -> (r: Partition)
        ensures
            r == self.partition,
    {
        self.partition
    }
}

/// The failure `apply_update` reports for this device and chunk sequence,
/// if any: the failure of `begin`; else the first failure of `write` over
/// the chunks, submitted to the fresh session on the selected partition;
/// else the failure of `finalize` on the fully staged image.
pub open spec fn apply_error(dev: Device, chunks: Seq<Seq<u8>>) -> Option<ErrorKind> {
    if OtaUpdate::begin_error(dev) is Some {
        OtaUpdate::begin_error(dev)
    } else if chunks_error(
        0,
        false,
        dev.parts@[dev.rr_selected()].size as int,
        dev.fault,
        chunks,
    ) is Some {
        chunks_error(0, false, dev.parts@[dev.rr_selected()].size as int, dev.fault, chunks)
    } else {
        finalize_failure(concat_bytes(chunks), false, dev.fault)
    }
}

/// Performs one whole update: begins a session to the next eligible
/// partition, writes every chunk in submission order, and finalizes. It
/// succeeds exactly when `begin` would, every chunk in turn would be
/// accepted, and the staged concatenation passes the finalize check; the
/// bytes readable from the committed partition are then exactly the
/// concatenation of the chunks. On failure the reported kind is the first
/// failing step's, and the device is left either untouched or with the
/// session released and the written-to partition holding no selectable
/// image. The boot selection is never touched either way.
pub fn apply_update(dev: &mut Device, chunks: &Vec<Vec<u8>>) -> (r: Result<
    CompletedOtaUpdate,
    Error,
>)
    requires
        old(dev).wf(),
    ensures
        final(dev).wf(),
        final(dev).boot_sel == old(dev).boot_sel,
        final(dev).parts == old(dev).parts,
        final(dev).running == old(dev).running,
        final(dev).fault == old(dev).fault,
        r is Ok <==> apply_error(*old(dev), chunks@.map_values(|ch: Vec<u8>| ch@)) is None,
        match r {
            Ok(c) => {
                &&& c.fits(*final(dev))
                &&& old(dev).eligible(c.idx())
                &&& c.idx() == old(dev).rr_selected()
                &&& final(dev).part_bytes(c.idx()) == concat_bytes(
                    chunks@.map_values(|ch: Vec<u8>| ch@),
                )
                &&& valid_image(final(dev).part_bytes(c.idx()))
                &&& final(dev).img@ == old(dev).img@.update(c.idx(), ImageState::New)
                &&& final(dev).session is None
            },
            Err(e) => {
                &&& apply_error(*old(dev), chunks@.map_values(|ch: Vec<u8>| ch@)) == Some(
                    e.kind_spec(),
                )
                &&& {
                    ||| *final(dev) == *old(dev)
                    ||| (final(dev).session is None && final(dev).img@ == old(dev).img@.update(
                        old(dev).rr_selected(),
                        ImageState::Absent,
                    ) && final(dev).part_bytes(old(dev).rr_selected()).len() == 0)
                }
            },
        },
{
    let ghost all = chunks@.map_values(|ch: Vec<u8>| ch@);
    let mut session = match OtaUpdate::begin(dev) {
        Ok(s) => s,
        Err(e) => {
            return Err(e);
        },
    };
    let ghost target = session.idx();
    proof {
        assert(session.write_all_error(*dev, all) == chunks_error(
            0,
            false,
            old(dev).parts@[old(dev).rr_selected()].size as int,
            old(dev).fault,
            all,
        ));
    }
    match session.write_all(dev, chunks) {
        Ok(_) => {},
        Err(e) => {
            session.abort(dev);
            return Err(e);
        },
    }
    proof {
        assert(session.staged@ =~= concat_bytes(all));
    }
    match session.finalize(dev) {
        Ok(c) => {
            proof {
                assert(dev.img@ =~= old(dev).img@.update(target, ImageState::New));
            }
            Ok(c)
        },
        Err(e) => Err(e),
    }
}

/// At most one update session is open at a time: any two sessions bound to
/// the same device state are sessions on the same partition — a fresh
/// `begin` can never hand out a session aliasing a different open one.
pub proof fn lemma_single_open_session(s1: OtaUpdate, s2: OtaUpdate, dev: Device)
    requires
        s1.bound_to(dev),
        s2.bound_to(dev),
    ensures
        s1.partition == s2.partition,
{
}

/// While an update session is open, the boot selection does not point at
/// the partition the session writes to, and that partition holds no
/// selectable image; `abort` keeps both, so an abandoned session never
/// leaves the boot selection pointing at its partition.
pub proof fn lemma_open_session_not_boot_target(s: OtaUpdate, dev: Device)
    requires
        s.bound_to(dev),
    ensures
        dev.boot_sel.partition != s.partition.index,
        dev.img@[s.idx()] is Absent,
{
}

} // verus!
