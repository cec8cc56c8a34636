use tcsp::frame::{Frame, FrameMeta, FRAME_DATA_LENGTH, FRAME_DEFAULT_START_OFFSET, FRAME_MAX_LENGTH, FRAME_PADDING};

#[test]
fn test_buffer_head_expand_and_shrink() {
    let mut buffer = Frame::default();
    assert!(buffer.expand_head(10).is_ok());
    assert!(buffer
        .expand_head((FRAME_DEFAULT_START_OFFSET - 10).into())
        .is_ok());
    assert!(buffer.expand_head(1).is_err());

    assert!(buffer.shrink_head(5).is_ok());
    assert_eq!(buffer.meta.len, FRAME_DEFAULT_START_OFFSET - 5);
    assert!(buffer
        .shrink_head(FRAME_DEFAULT_START_OFFSET.into())
        .is_ok());
    assert_eq!(buffer.meta.len, 0);

    assert!(buffer.shrink_head(FRAME_DATA_LENGTH).is_err());
}

#[test]
fn test_buffer_shrink() {
    let mut buffer = Frame::default();
    assert!(buffer.expand_tail(1).is_ok());
    assert_eq!(buffer.meta.len, 1);
    assert!(buffer.expand_tail(FRAME_MAX_LENGTH).is_ok());
    assert_eq!(buffer.meta.len as usize, FRAME_MAX_LENGTH + 1);
    assert!(buffer
        .expand_tail(FRAME_PADDING - FRAME_DEFAULT_START_OFFSET as usize - 1)
        .is_ok());
    assert!(buffer.expand_tail(1).is_err());
}

#[test]
fn buffer_expand_then_shrink_restores_view() {
    let payload: Vec<u8> = (1..=20).collect();
    let mut frame = Frame::new(FrameMeta::default(), &payload).unwrap();
    for k in 0..=16usize {
        assert!(frame.expand_head(k).is_ok());
        assert_eq!(frame.len(), 20 + k);
        assert!(frame.shrink_head(k).is_ok());
        assert_eq!(frame.len(), 20);
        assert_eq!(frame.data(), payload.as_slice());
    }
    assert!(frame.expand_head(17).is_err());
}

#[test]
fn buffer_new_rejects_oversized_payload() {
    let too_long = vec![0u8; FRAME_MAX_LENGTH + 1];
    assert!(Frame::new(FrameMeta::default(), &too_long).is_err());
    let just_fits = vec![7u8; FRAME_MAX_LENGTH];
    let frame = Frame::new(FrameMeta::default(), &just_fits).unwrap();
    assert_eq!(frame.len(), FRAME_MAX_LENGTH);
}

#[test]
fn buffer_write_range_overwrites_window() {
    let mut frame = Frame::new(FrameMeta::default(), &[0u8; 8]).unwrap();
    frame.write_range(2, &[9, 8, 7]);
    assert_eq!(frame.data(), &[0, 0, 9, 8, 7, 0, 0, 0]);
    frame.write_byte(0, 1);
    assert_eq!(frame.data()[0], 1);
}

#[test]
fn meta_exchange_src_dest_swaps() {
    let mut meta = FrameMeta::default();
    meta.src_id = 3;
    meta.dest_id = 9;
    meta.exchange_src_dest();
    assert_eq!(meta.src_id, 9);
    assert_eq!(meta.dest_id, 3);
}

#[test]
fn buffer_extended_sizes_store_to_payload() {
    let payload = vec![5u8; 200];
    let frame = Frame::extended(FrameMeta::default(), &payload).unwrap();
    assert_eq!(frame.len(), 200);
    assert_eq!(frame.data(), payload.as_slice());
}
