use esp_ota::{
    mark_app_valid, rollback_and_reboot, Device, ErrorKind, Fault, ImageState, OtaUpdate,
    Partition,
};

const MAGIC: u8 = 0xE9;

fn device_with_fault(fault: Option<Fault>) -> Device {
    let parts = vec![
        Partition { index: 0, offset: 0, size: 8192, ota: true },
        Partition { index: 1, offset: 8192, size: 8192, ota: true },
    ];
    let mut dev = Device::new(parts, 0).unwrap();
    dev.fault = fault;
    dev
}

fn good_chunk(len: usize) -> Vec<u8> {
    let mut chunk = vec![0u8; len];
    chunk[0] = MAGIC;
    chunk
}

#[test]
fn begin_reports_alloc_failure() {
    let mut dev = device_with_fault(Some(Fault::Alloc));
    let err = OtaUpdate::begin(&mut dev).unwrap_err();
    assert_eq!(err.kind(), ErrorKind::AllocFailed);
}

#[test]
fn begin_reports_corrupt_selection_data() {
    let mut dev = device_with_fault(Some(Fault::SelectData));
    let err = OtaUpdate::begin(&mut dev).unwrap_err();
    assert_eq!(err.kind(), ErrorKind::InvalidOtaPartitionData);
}

#[test]
fn begin_reports_flash_timeout_and_failure() {
    let mut dev = device_with_fault(Some(Fault::FlashTimeout));
    assert_eq!(OtaUpdate::begin(&mut dev).unwrap_err().kind(), ErrorKind::FlashTimeout);
    let mut dev = device_with_fault(Some(Fault::FlashFailed));
    assert_eq!(OtaUpdate::begin(&mut dev).unwrap_err().kind(), ErrorKind::FlashFailed);
}

#[test]
fn begin_refused_while_running_image_unconfirmed() {
    let mut dev = device_with_fault(None);
    let mut session = OtaUpdate::begin(&mut dev).unwrap();
    session.write(&dev, &good_chunk(4096)).unwrap();
    let mut committed = session.finalize(&mut dev).unwrap();
    committed.set_as_boot_partition(&mut dev).unwrap();
    committed.restart(&mut dev);
    // the freshly booted image has not confirmed itself yet
    let err = OtaUpdate::begin(&mut dev).unwrap_err();
    assert_eq!(err.kind(), ErrorKind::InvalidRollbackState);
    mark_app_valid(&mut dev);
    assert!(OtaUpdate::begin(&mut dev).is_ok());
}

#[test]
fn write_reports_driver_faults() {
    let mut dev = device_with_fault(None);
    let mut session = OtaUpdate::begin(&mut dev).unwrap();
    dev.fault = Some(Fault::FlashTimeout);
    assert_eq!(
        session.write(&dev, &good_chunk(64)).unwrap_err().kind(),
        ErrorKind::FlashTimeout
    );
    dev.fault = Some(Fault::FlashFailed);
    assert_eq!(
        session.write(&dev, &good_chunk(64)).unwrap_err().kind(),
        ErrorKind::FlashFailed
    );
    dev.fault = Some(Fault::SelectData);
    assert_eq!(
        session.write(&dev, &good_chunk(64)).unwrap_err().kind(),
        ErrorKind::InvalidOtaPartitionData
    );
    // a driver fault does not poison the session: clearing it lets the
    // update continue
    dev.fault = None;
    assert!(session.write(&dev, &good_chunk(64)).is_ok());
}

#[test]
fn write_past_partition_end_is_a_flash_failure() {
    let mut dev = device_with_fault(None);
    let mut session = OtaUpdate::begin(&mut dev).unwrap();
    session.write(&dev, &good_chunk(8192)).unwrap();
    let err = session.write(&dev, &[0u8; 1]).unwrap_err();
    assert_eq!(err.kind(), ErrorKind::FlashFailed);
    assert_eq!(session.written(), 8192);
}

#[test]
fn finalize_rejects_truncated_image() {
    let mut dev = device_with_fault(None);
    let mut session = OtaUpdate::begin(&mut dev).unwrap();
    // a valid image needs at least the full header
    session.write(&dev, &good_chunk(8)).unwrap();
    let err = session.finalize(&mut dev).unwrap_err();
    assert_eq!(err.kind(), ErrorKind::InvalidImage);
    assert_eq!(dev.img[1], ImageState::Absent);
}

#[test]
fn finalize_reports_encryption_failure() {
    let mut dev = device_with_fault(None);
    let mut session = OtaUpdate::begin(&mut dev).unwrap();
    session.write(&dev, &good_chunk(4096)).unwrap();
    dev.fault = Some(Fault::Encryption);
    let err = session.finalize(&mut dev).unwrap_err();
    assert_eq!(err.kind(), ErrorKind::WritingEncryptedFailed);
    assert_eq!(dev.img[1], ImageState::Absent);
    assert!(dev.session.is_none());
}

#[test]
fn set_as_boot_partition_rejects_erased_image() {
    let mut dev = device_with_fault(None);
    let mut session = OtaUpdate::begin(&mut dev).unwrap();
    session.write(&dev, &good_chunk(4096)).unwrap();
    let mut committed = session.finalize(&mut dev).unwrap();
    // a second update round erases the same partition again
    let next = OtaUpdate::begin(&mut dev).unwrap();
    let err = committed.set_as_boot_partition(&mut dev).unwrap_err();
    assert_eq!(err.kind(), ErrorKind::InvalidImage);
    next.abort(&mut dev);
}

#[test]
fn set_as_boot_partition_reports_flash_faults() {
    let mut dev = device_with_fault(None);
    let mut session = OtaUpdate::begin(&mut dev).unwrap();
    session.write(&dev, &good_chunk(4096)).unwrap();
    let mut committed = session.finalize(&mut dev).unwrap();
    dev.fault = Some(Fault::FlashTimeout);
    assert_eq!(
        committed.set_as_boot_partition(&mut dev).unwrap_err().kind(),
        ErrorKind::FlashTimeout
    );
    dev.fault = Some(Fault::FlashFailed);
    assert_eq!(
        committed.set_as_boot_partition(&mut dev).unwrap_err().kind(),
        ErrorKind::FlashFailed
    );
    dev.fault = None;
    assert!(committed.set_as_boot_partition(&mut dev).is_ok());
}

#[test]
fn rollback_reports_generic_failure_on_driver_fault() {
    let mut dev = device_with_fault(Some(Fault::FlashFailed));
    let boot_before = dev.boot_sel;
    let err = rollback_and_reboot(&mut dev).unwrap_err();
    assert_eq!(err.kind(), ErrorKind::RollbackFailed);
    assert_eq!(dev.boot_sel, boot_before);
}
