use vstd::prelude::*;
use crate::errors::{Error, ErrorKind};

verus! {

/// First byte every well-formed app image starts with.
pub const APP_IMAGE_MAGIC: u8 = 0xE9;

/// Least number of bytes a well-formed app image can have: the fixed-size
/// image header that the format validator checks.
pub const APP_IMAGE_HEADER_LEN: usize = 24;

/// Most entries a partition table may hold. Real tables are tiny; the bound
/// also keeps the round-robin index arithmetic free of overflow.
pub const MAX_PARTITIONS: usize = 65536;

/// A well-formed app image: at least a full header, starting with the app
/// image magic byte.
pub open spec fn valid_image(bytes: Seq<u8>) -> bool {
    bytes.len() >= APP_IMAGE_HEADER_LEN && bytes[0] == APP_IMAGE_MAGIC
}

/// One contiguous flash region designated to hold a firmware image.
///
/// A partition is identified by its position in the partition table; the
/// update manager's logic depends only on that identity, never on the
/// backing driver's handle.
#[derive(Debug, Copy, Clone, PartialEq, Eq, Structural)]
pub struct Partition {
    /// Position in the partition table; the partition's identity.
    pub index: usize,
    /// Start offset of the region in flash.
    pub offset: u64,
    /// Capacity of the region in bytes.
    pub size: usize,
    /// Whether the slot is OTA-update eligible (`false`: the factory slot).
    pub ota: bool,
}

/// The persistent boot-selection record: which partition the bootloader
/// loads next, and whether that image still has to confirm itself.
#[derive(Debug, Copy, Clone, PartialEq, Eq, Structural)]
pub struct BootSelection {
    /// Index of the partition the bootloader will load next.
    pub partition: usize,
    /// True while the selected image has never completed a successful
    /// self-validation pass; a bootloader uses it to auto-rollback.
    pub pending_validation: bool,
}

/// What the boot-selection store records about the image in one partition.
#[derive(Debug, Copy, Clone, PartialEq, Eq, Structural)]
pub enum ImageState {
    /// No complete image: erased, mid-write, or aborted. Never bootable.
    Absent,
    /// A validated image was finalized here but not selected for boot.
    New,
    /// Selected for boot and not yet confirmed by a self-validation pass.
    Pending,
    /// Confirmed healthy by a self-validation pass.
    Valid,
    /// Marked defective by a rollback.
    Invalid,
}

/// An injected driver failure. The flash driver and the boot-selection
/// store are external collaborators that can fail on any call; setting a
/// fault on the device makes the next affected operation report it, the way
/// the real driver would.
#[derive(Debug, Copy, Clone, PartialEq, Eq, Structural)]
pub enum Fault {
    /// No memory for the driver's session bookkeeping.
    Alloc,
    /// A flash operation times out.
    FlashTimeout,
    /// A flash operation fails.
    FlashFailed,
    /// The persistent boot-selection data reads back corrupt.
    SelectData,
    /// Writing the final encrypted bytes fails.
    Encryption,
}

/// The device as the update manager sees it: the immutable partition table,
/// the bytes written to each partition since its last erase, the
/// boot-selection store, and the single write-session slot.
///
/// This is an in-memory stand-in for the persistent stores the core relies
/// on; it keeps the whole update protocol checkable without hardware.
pub struct Device {
    /// The partition table, fixed for the device's lifetime.
    pub parts: Vec<Partition>,
    /// Bytes written to each partition since it was last erased.
    pub data: Vec<Vec<u8>>,
    /// What the boot-selection store records about each partition's image.
    pub img: Vec<ImageState>,
    /// Index of the partition whose image is currently running.
    pub running: usize,
    /// The persistent boot-selection record.
    pub boot_sel: BootSelection,
    /// The partition bound to the open update session, if one is open.
    pub session: Option<usize>,
    /// An injected driver failure, if any.
    pub fault: Option<Fault>,
}

impl Device {
    /// Number of partitions in the table.
    pub open spec fn len(self) -> int {
        self.parts@.len() as int
    }

    /// The bytes currently readable from partition `i`.
    pub open spec fn part_bytes(self, i: int) -> Seq<u8> {
        self.data@[i]@
    }

    /// A valid partition table: non-empty, within the size bound, and each
    /// entry carrying its own position as its identity.
    pub open spec fn table_ok(parts: Seq<Partition>, running: usize) -> bool {
        &&& 0 < parts.len() <= MAX_PARTITIONS
        &&& (running as int) < parts.len()
        &&& forall|i: int| 0 <= i < parts.len() ==> (#[trigger] parts[i]).index == i
    }

    /// Well-formedness of the device model. Constructors establish it and
    /// every operation preserves it: the table is valid, the per-partition
    /// stores match the table, no partition holds more bytes than its
    /// capacity, the pending-validation flag agrees with the selected
    /// image's record, and an open session is bound to an OTA partition
    /// that is neither running nor selected for boot and holds no
    /// selectable image.
    pub open spec fn wf(self) -> bool {
        &&& Self::table_ok(self.parts@, self.running)
        &&& self.data@.len() == self.parts@.len()
        &&& self.img@.len() == self.parts@.len()
        &&& (self.boot_sel.partition as int) < self.len()
        &&& forall|i: int|
            0 <= i < self.len() ==> (#[trigger] self.data@[i])@.len() <= self.parts@[i].size
        &&& (self.boot_sel.pending_validation <==> self.img@[
            self.boot_sel.partition as int
        ] is Pending)
        &&& match self.session {
            Some(i) => {
                &&& (i as int) < self.len()
                &&& self.parts@[i as int].ota
                &&& i != self.running
                &&& i != self.boot_sel.partition
                &&& self.img@[i as int] is Absent
            },
            None => true,
        }
    }

    /// Builds a freshly booted device over the given partition table:
    /// partition `running` holds the confirmed running image, every other
    /// partition is empty, the boot selection points at the running
    /// partition with nothing pending, and no session is open. Returns
    /// `None` when the table is not valid.
    pub fn new(parts: Vec<Partition>, running: usize) -> (r: Option<Device>)
        ensures
            r is Some <==> Self::table_ok(parts@, running),
            r matches Some(d) ==> {
                &&& d.wf()
                &&& d.parts == parts
                &&& d.running == running
                &&& d.boot_sel == (BootSelection { partition: running, pending_validation: false })
                &&& d.session is None
                &&& d.fault is None
                &&& forall|i: int| 0 <= i < parts@.len() ==> (#[trigger] d.data@[i])@.len() == 0
                &&& forall|i: int|
                    0 <= i < parts@.len() ==> (#[trigger] d.img@[i]) == (if i == running as int {
                        ImageState::Valid
                    } else {
                        ImageState::Absent
                    })
            },
    {
        let n = parts.len();
        if n == 0 || n > MAX_PARTITIONS || running >= n {
            return None;
        }
        let mut i: usize = 0;
        while i < n
            invariant
                i <= n,
                n == parts@.len(),
                forall|j: int| 0 <= j < i ==> (#[trigger] parts@[j]).index == j,
            decreases n - i,
        {
            if parts[i].index != i {
                return None;
            }
            i += 1;
        }
        let mut data: Vec<Vec<u8>> = Vec::new();
        let mut img: Vec<ImageState> = Vec::new();
        let mut k: usize = 0;
        while k < n
            invariant
                k <= n,
                data@.len() == k,
                img@.len() == k,
                forall|j: int| 0 <= j < k ==> (#[trigger] data@[j])@.len() == 0,
                forall|j: int| 0 <= j < k ==> (#[trigger] img@[j]) == ImageState::Absent,
            decreases n - k,
        {
            data.push(Vec::new());
            img.push(ImageState::Absent);
            k += 1;
        }
        img.set(running, ImageState::Valid);
        Some(
            Device {
                parts,
                data,
                img,
                running,
                boot_sel: BootSelection { partition: running, pending_validation: false },
                session: None,
                fault: None,
            },
        )
    }

    /// Partition `i` may be handed out as the target of a new update:
    /// it is an OTA slot and holds neither the running image nor the one
    /// selected for boot.
    pub open spec fn eligible(self, i: int) -> bool {
        &&& 0 <= i < self.len()
        &&& self.parts@[i].ota
        &&& i != self.running as int
        &&& i != self.boot_sel.partition as int
    }

    /// Round-robin rank of partition `i`: how many steps after the running
    /// partition it comes, cycling through the table.
    pub open spec fn rr_distance(self, i: int) -> int {
        if i > self.running as int {
            i - self.running as int
        } else {
            i - self.running as int + self.len()
        }
    }

    /// The index of the partition that round-robin selection hands out on
    /// this device: the eligible partition nearest after the running one.
    /// Meaningful only when some partition is eligible.
    pub open spec fn rr_selected(self) -> int {
        choose|j: int|
            self.eligible(j) && (forall|i: int|
                self.eligible(i) ==> self.rr_distance(j) <= self.rr_distance(i))
    }

    /// Round-robin ranks are distinct over the table, so the eligible
    /// partition with the least rank is unique: any eligible partition at
    /// least as near as every other one is the selected one.
    pub proof fn lemma_rr_selected_unique(self, j: int)
        requires
            self.wf(),
            self.eligible(j),
            forall|i: int| self.eligible(i) ==> self.rr_distance(j) <= self.rr_distance(i),
        ensures
            j == self.rr_selected(),
    {
        assert(self.eligible(j) && (forall|i: int|
            self.eligible(i) ==> self.rr_distance(j) <= self.rr_distance(i)));
        let k = self.rr_selected();
        assert(self.eligible(k) && (forall|i: int|
            self.eligible(i) ==> self.rr_distance(k) <= self.rr_distance(i))) by {
            assert(exists|c: int|
                self.eligible(c) && (forall|i: int|
                    self.eligible(i) ==> self.rr_distance(c) <= self.rr_distance(i)));
        }
        assert(self.rr_distance(j) == self.rr_distance(k));
    }

    /// Selects the next OTA-update-eligible partition, round-robin starting
    /// after the currently running partition. Refuses to hand out any
    /// partition while a session is open, and fails with `NoOtaPartition`
    /// when no eligible partition exists.
    pub fn next_update_partition(&self) -> (r: Result<Partition, Error>)
        requires
            self.wf(),
        ensures
            r is Ok <==> (self.session is None && exists|j: int| self.eligible(j)),
            r matches Ok(p) ==> {
                &&& self.eligible(p.index as int)
                &&& p == self.parts@[p.index as int]
                &&& forall|j: int|
                    self.eligible(j) ==> self.rr_distance(p.index as int) <= self.rr_distance(j)
                &&& p.index as int == self.rr_selected()
            },
            r matches Err(e) ==> e.kind_spec() == ErrorKind::NoOtaPartition,
    {
        if self.session.is_some() {
            return Err(Error::from_kind(ErrorKind::NoOtaPartition));
        }
        let n = self.parts.len();
        let mut k: usize = 1;
        while k < n
            invariant
                self.wf(),
                self.session is None,
                n == self.parts@.len(),
                1 <= k <= n,
                forall|j: int| self.eligible(j) ==> self.rr_distance(j) >= k,
            decreases n - k,
        {
            let i = if self.running >= n - k {
                self.running - (n - k)
            } else {
                self.running + k
            };
            proof {
                assert(self.rr_distance(i as int) == k);
                assert(forall|j: int|
                    self.eligible(j) && self.rr_distance(j) == k ==> j == i as int);
            }
            if self.parts[i].ota && i != self.running && i != self.boot_sel.partition {
                proof {
                    assert(self.eligible(i as int));
                    assert(forall|j: int|
                        self.eligible(j) ==> self.rr_distance(i as int) <= self.rr_distance(j));
                    self.lemma_rr_selected_unique(i as int);
                }
                return Ok(self.parts[i]);
            }
            k += 1;
        }
        proof {
            assert(forall|j: int| self.eligible(j) ==> self.rr_distance(j) < n);
        }
        Err(Error::from_kind(ErrorKind::NoOtaPartition))
    }
}

} // verus!
