use esp_ota::{
    apply_update, mark_app_valid, rollback_and_reboot, Device, ErrorKind, ImageState, OtaUpdate,
    Partition,
};

const MAGIC: u8 = 0xE9;

fn three_slot_device() -> Device {
    let parts = vec![
        Partition { index: 0, offset: 0, size: 65536, ota: false },
        Partition { index: 1, offset: 65536, size: 65536, ota: true },
        Partition { index: 2, offset: 131072, size: 65536, ota: true },
    ];
    Device::new(parts, 1).unwrap()
}

fn image_chunk(len: usize, fill: u8, with_magic: bool) -> Vec<u8> {
    let mut chunk = vec![fill; len];
    if with_magic {
        chunk[0] = MAGIC;
    }
    chunk
}

#[test]
fn full_update_cycle_commits_and_validates() {
    let mut dev = three_slot_device();
    let mut session = OtaUpdate::begin(&mut dev).unwrap();
    assert_eq!(session.raw_partition().index, 2);
    for _ in 0..3 {
        let chunk = image_chunk(4096, 0xAB, true);
        session.write(&dev, &chunk).unwrap();
    }
    assert_eq!(session.written(), 12288);
    let mut committed = session.finalize(&mut dev).unwrap();
    assert_eq!(committed.raw_partition().index, 2);
    committed.set_as_boot_partition(&mut dev).unwrap();
    assert_eq!(dev.boot_sel.partition, 2);
    assert!(dev.boot_sel.pending_validation);
    committed.restart(&mut dev);
    assert_eq!(dev.running, 2);
    assert!(dev.boot_sel.pending_validation);
    mark_app_valid(&mut dev);
    assert_eq!(dev.boot_sel.partition, 2);
    assert!(!dev.boot_sel.pending_validation);
    assert_eq!(dev.img[2], ImageState::Valid);
}

#[test]
fn mark_app_valid_is_idempotent() {
    let mut dev = three_slot_device();
    let mut session = OtaUpdate::begin(&mut dev).unwrap();
    session.write(&dev, &image_chunk(4096, 0x11, true)).unwrap();
    let mut committed = session.finalize(&mut dev).unwrap();
    committed.set_as_boot_partition(&mut dev).unwrap();
    committed.restart(&mut dev);
    mark_app_valid(&mut dev);
    assert!(!dev.boot_sel.pending_validation);
    let boot_before = dev.boot_sel;
    let img_before = dev.img.clone();
    mark_app_valid(&mut dev);
    assert_eq!(dev.boot_sel, boot_before);
    assert_eq!(dev.img, img_before);
}

#[test]
fn readback_equals_chunk_concatenation() {
    let mut dev = three_slot_device();
    let mut session = OtaUpdate::begin(&mut dev).unwrap();
    let chunks = vec![
        image_chunk(100, 0x01, true),
        image_chunk(57, 0x02, false),
        image_chunk(600, 0x03, false),
    ];
    for chunk in &chunks {
        session.write(&dev, chunk).unwrap();
    }
    session.finalize(&mut dev).unwrap();
    let mut expected = Vec::new();
    for chunk in &chunks {
        expected.extend_from_slice(chunk);
    }
    assert_eq!(dev.data[2], expected);
}

#[test]
fn write_all_appends_every_chunk_in_order() {
    let mut dev = three_slot_device();
    let mut session = OtaUpdate::begin(&mut dev).unwrap();
    let chunks = vec![
        image_chunk(30, 0x10, true),
        image_chunk(40, 0x20, false),
        image_chunk(50, 0x30, false),
    ];
    session.write_all(&dev, &chunks).unwrap();
    assert_eq!(session.written(), 120);
    session.finalize(&mut dev).unwrap();
    let mut expected = Vec::new();
    for chunk in &chunks {
        expected.extend_from_slice(chunk);
    }
    assert_eq!(dev.data[2], expected);
}

#[test]
fn write_all_stops_at_the_first_failing_chunk() {
    let mut dev = three_slot_device();
    let mut session = OtaUpdate::begin(&mut dev).unwrap();
    let chunks = vec![
        image_chunk(4096, 0x41, true),
        image_chunk(65536, 0x42, false),  // overruns the partition
        image_chunk(10, 0x43, false),
    ];
    let err = session.write_all(&dev, &chunks).unwrap_err();
    assert_eq!(err.kind(), ErrorKind::FlashFailed);
    // only the chunks before the failing one were accepted
    assert_eq!(session.written(), 4096);
    // an overrun is not a format failure: the session stays usable
    assert!(session.write(&dev, &image_chunk(16, 0x44, false)).is_ok());
}

#[test]
fn apply_update_reports_the_first_failing_step() {
    // a first chunk without the magic byte fails the format check
    let mut dev = three_slot_device();
    let err = apply_update(&mut dev, &vec![image_chunk(4096, 0x00, false)]).unwrap_err();
    assert_eq!(err.kind(), ErrorKind::InvalidMagicByte);
    // a well-formed but truncated image fails validation at finalize
    let mut dev = three_slot_device();
    let err = apply_update(&mut dev, &vec![image_chunk(4, 0x00, true)]).unwrap_err();
    assert_eq!(err.kind(), ErrorKind::InvalidImage);
}

#[test]
fn apply_update_installs_the_concatenated_image() {
    let mut dev = three_slot_device();
    let chunks = vec![
        image_chunk(4096, 0xAA, true),
        image_chunk(4096, 0xBB, false),
        image_chunk(4096, 0xCC, false),
    ];
    let committed = apply_update(&mut dev, &chunks).unwrap();
    assert_eq!(committed.raw_partition().index, 2);
    let mut expected = Vec::new();
    for chunk in &chunks {
        expected.extend_from_slice(chunk);
    }
    assert_eq!(dev.data[2], expected);
    assert_eq!(dev.img[2], ImageState::New);
    assert!(dev.session.is_none());
    // an empty chunk list stages nothing, so the update is refused
    let mut dev = three_slot_device();
    let err = apply_update(&mut dev, &vec![]).unwrap_err();
    assert_eq!(err.kind(), ErrorKind::NothingWritten);
}

#[test]
fn finalize_without_any_write_fails_with_nothing_written() {
    let mut dev = three_slot_device();
    let session = OtaUpdate::begin(&mut dev).unwrap();
    let err = session.finalize(&mut dev).unwrap_err();
    assert_eq!(err.kind(), ErrorKind::NothingWritten);
    assert!(dev.session.is_none());
    assert_eq!(dev.img[2], ImageState::Absent);
}

#[test]
fn second_begin_while_session_open_fails() {
    let mut dev = three_slot_device();
    let session = OtaUpdate::begin(&mut dev).unwrap();
    let err = OtaUpdate::begin(&mut dev).unwrap_err();
    assert_eq!(err.kind(), ErrorKind::NoOtaPartition);
    session.abort(&mut dev);
    // once the first session is released, begin succeeds again
    assert!(OtaUpdate::begin(&mut dev).is_ok());
}

#[test]
fn abandoned_session_never_becomes_boot_target() {
    let mut dev = three_slot_device();
    let boot_before = dev.boot_sel;
    let mut session = OtaUpdate::begin(&mut dev).unwrap();
    let target = session.raw_partition().index;
    session.write(&dev, &image_chunk(4096, 0x55, true)).unwrap();
    session.abort(&mut dev);
    assert_eq!(dev.boot_sel, boot_before);
    assert_ne!(dev.boot_sel.partition, target);
    assert_eq!(dev.img[target], ImageState::Absent);
    assert!(dev.session.is_none());
}

#[test]
fn bad_magic_byte_fails_session_for_good() {
    let mut dev = three_slot_device();
    let mut session = OtaUpdate::begin(&mut dev).unwrap();
    let err = session.write(&dev, &image_chunk(4096, 0x7F, false)).unwrap_err();
    assert_eq!(err.kind(), ErrorKind::InvalidMagicByte);
    // the session is unusable for further writes, even well-formed ones
    let err = session.write(&dev, &image_chunk(4096, 0x00, true)).unwrap_err();
    assert_eq!(err.kind(), ErrorKind::InvalidMagicByte);
    assert_eq!(session.written(), 0);
    let err = session.finalize(&mut dev).unwrap_err();
    assert_eq!(err.kind(), ErrorKind::NothingWritten);
}

#[test]
fn rollback_without_previous_image_fails_no_apps() {
    let mut dev = three_slot_device();
    let boot_before = dev.boot_sel;
    let err = rollback_and_reboot(&mut dev).unwrap_err();
    assert_eq!(err.kind(), ErrorKind::RollbackFailedNoApps);
    assert_eq!(dev.boot_sel, boot_before);
    assert_eq!(dev.running, 1);
}

#[test]
fn rollback_returns_to_previous_good_image() {
    let mut dev = three_slot_device();
    let mut session = OtaUpdate::begin(&mut dev).unwrap();
    session.write(&dev, &image_chunk(8192, 0xCD, true)).unwrap();
    let mut committed = session.finalize(&mut dev).unwrap();
    committed.set_as_boot_partition(&mut dev).unwrap();
    committed.restart(&mut dev);
    mark_app_valid(&mut dev);
    // the image in partition 1 is still recorded as valid, so the new
    // image can be rolled back
    rollback_and_reboot(&mut dev).unwrap();
    assert_eq!(dev.running, 1);
    assert_eq!(dev.boot_sel.partition, 1);
    assert!(!dev.boot_sel.pending_validation);
    assert_eq!(dev.img[2], ImageState::Invalid);
    assert_eq!(dev.img[1], ImageState::Valid);
}

#[test]
fn round_robin_skips_factory_and_running_partition() {
    let parts = vec![
        Partition { index: 0, offset: 0, size: 4096, ota: false },
        Partition { index: 1, offset: 4096, size: 4096, ota: true },
        Partition { index: 2, offset: 8192, size: 4096, ota: true },
        Partition { index: 3, offset: 12288, size: 4096, ota: true },
    ];
    let dev = Device::new(parts, 2).unwrap();
    let p = dev.next_update_partition().unwrap();
    assert_eq!(p.index, 3);
    assert!(p.ota);
}

#[test]
fn begin_with_no_ota_partition_fails() {
    let parts = vec![
        Partition { index: 0, offset: 0, size: 4096, ota: false },
        Partition { index: 1, offset: 4096, size: 4096, ota: true },
    ];
    // the only OTA slot is the running one, so nothing is eligible
    let mut dev = Device::new(parts, 1).unwrap();
    let err = OtaUpdate::begin(&mut dev).unwrap_err();
    assert_eq!(err.kind(), ErrorKind::NoOtaPartition);
}

#[test]
fn device_new_rejects_bad_tables() {
    assert!(Device::new(vec![], 0).is_none());
    let parts = vec![Partition { index: 1, offset: 0, size: 4096, ota: true }];
    assert!(Device::new(parts, 0).is_none());
    let parts = vec![Partition { index: 0, offset: 0, size: 4096, ota: true }];
    assert!(Device::new(parts, 1).is_none());
}
