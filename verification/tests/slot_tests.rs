use tcsp::can::Slot;

#[test]
fn slot_test_slot() {
    let mut slot = Slot::new();
    let data = [0u8; 158];
    assert!(slot.set_total_len(159).is_err());
    assert!(slot.set_total_len(30).is_ok());
    assert!(slot.copy_from_slice(&data[..50]).is_err());
    assert!(slot.copy_from_slice(&data[..29]).is_ok());
    assert!(!slot.is_complete());
    assert!(slot.copy_from_slice(&data[29..30]).is_ok());
    assert!(slot.is_complete());
    slot.reset();
    assert!(!slot.is_complete());
}

#[test]
fn can_test_slot() {
    let mut slot = Slot::new();
    let data = [0u8; 158];
    assert!(slot.set_total_len(159).is_err());
    assert!(slot.set_total_len(30).is_ok());
    assert!(slot.copy_from_slice(&data[..50]).is_err());
    assert!(slot.copy_from_slice(&data[..29]).is_ok());
    assert!(!slot.is_complete());
    assert!(slot.copy_from_slice(&data[29..30]).is_ok());
    assert!(slot.is_complete());
}

#[test]
fn slot_data_returns_reassembled_bytes() {
    let mut slot = Slot::new();
    assert!(slot.set_total_len(4).is_ok());
    assert!(slot.copy_from_slice(&[1, 2]).is_ok());
    assert!(slot.copy_from_slice(&[3, 4]).is_ok());
    assert!(slot.is_complete());
    assert_eq!(slot.total_len(), 4);
    assert_eq!(slot.data(), &[1, 2, 3, 4]);
}
