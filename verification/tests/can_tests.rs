use tcsp::can::codec::{
    attach_multi_frame_hdr_and_checksum, attach_single_frame_hdr, TyCanProtocol,
};
use tcsp::can::id::{TyCanFrameType, TyCanId};
use tcsp::can::id::{TY_CAN_ID_FILTER_MASK, TY_CAN_ID_OFFSET};
use tcsp::frame::{Frame, FrameFlag, FrameMeta};
use tcsp::can::codec::get_checksum;

#[test]
fn ty_test_typeid() {
    let id = TyCanId::new(0x12, false, TyCanFrameType::Single.code(), 0x2a, 0x00);
    assert_eq!(id.raw, 0x54212);

    let id = TyCanId::new(0x56, false, TyCanFrameType::MultiFirst.code(), 0, 0x2a);
    assert_eq!(id.raw, 0x5400456);

    let id = TyCanId::new(0x56, false, TyCanFrameType::MultiMiddle.code(), 0, 0x2a);
    assert_eq!(id.raw, 0x5400656);
    assert_eq!(TY_CAN_ID_FILTER_MASK & 0x54212, 0x2a << TY_CAN_ID_OFFSET);
}

#[test]
fn can_test_typeid() {
    let id = TyCanId::new(0x34, true, TyCanFrameType::TimeBroadcast.code(), 0xfd, 0x2a);
    assert_eq!(id.get_pid(), 0x34);
    assert!(id.get_is_csp());
    assert_eq!(id.get_frame_type(), TyCanFrameType::TimeBroadcast.code());
    assert_eq!(id.get_dest_id(), 0xfd);
    assert_eq!(id.get_src_id(), 0x2a);
}

#[test]
fn test_ty_protocol() {
    // a short request survives the encode-decode round trip
    let payload = [10u8, 20, 30];
    let meta = FrameMeta {
        src_id: 0,
        dest_id: 0x2a,
        ..FrameMeta::default()
    };
    let frame = Frame::new(meta, &payload).unwrap();
    let mut sender = TyCanProtocol::new(0x00);
    let wire = sender.encode(frame).unwrap();
    assert_eq!(wire.len(), 1);

    let mut receiver = TyCanProtocol::new(0x2a);
    let decoded = receiver
        .handle_can_frame(wire[0].id, &wire[0].data)
        .unwrap()
        .unwrap();
    assert_eq!(decoded.data(), &payload);
    assert_eq!(decoded.meta.src_id, 0);
    assert_eq!(decoded.meta.dest_id, 0x2a);
}

#[test]
fn test_ty_protocol_recv() {
    let id = TyCanId::new(0x12, false, TyCanFrameType::Single.code(), 0x2a, 0x00);
    let data = [0x05u8, 0x01, 0x03, 0x04, 0x05, 0x06, 0x07, 0x08];
    let mut adaptor = TyCanProtocol::new(0x2a);
    let frame = adaptor.handle_can_frame(id.raw, &data).unwrap().unwrap();
    assert_eq!(frame.len(), 6);
    assert_eq!(frame.meta.src_id, 0);
    assert_eq!(frame.meta.dest_id, 0x2a);
    assert_eq!(&frame.data()[..frame.len()], &data[2..]);

    // a multi-frame transmission, reassembled from five frames
    let first_id = TyCanId::new(0x20, false, TyCanFrameType::MultiFirst.code(), 0x2a, 0x00);
    let rest_id = TyCanId::new(0x20, false, TyCanFrameType::MultiMiddle.code(), 0x2a, 0x00);
    let mut data: Vec<u8> = [0u8, 0x24, 0x05, 0x03]
        .into_iter()
        .chain(1..=34)
        .collect::<Vec<u8>>();
    let checksum = get_checksum(&data[2..]);
    data.push(checksum);
    assert!(adaptor
        .handle_can_frame(first_id.raw, &data[0..8])
        .unwrap()
        .is_none());
    assert!(adaptor
        .handle_can_frame(rest_id.raw, &data[8..16])
        .unwrap()
        .is_none());
    assert!(adaptor
        .handle_can_frame(rest_id.raw, &data[16..24])
        .unwrap()
        .is_none());
    assert!(adaptor
        .handle_can_frame(rest_id.raw, &data[24..32])
        .unwrap()
        .is_none());
    let frame = adaptor
        .handle_can_frame(rest_id.raw, &data[32..39])
        .unwrap()
        .unwrap();
    assert_eq!(frame.meta.len, 39 - 4 - 1);
    assert_eq!(frame.meta.src_id, 0);
    assert_eq!(frame.meta.dest_id, 0x2a);
    assert_eq!(frame.meta.id, 0x20);
    assert_eq!(&frame.data()[..frame.len()], &data[4..38]);
}

#[test]
fn test_ty_protocol_send() {
    let data = [1u8, 2, 3, 4, 5, 6];
    let mut tf = Frame::new(
        FrameMeta {
            src_id: 0x2a,
            dest_id: 0,
            id: 0x12,
            ..FrameMeta::default()
        },
        &data,
    )
    .unwrap();
    attach_single_frame_hdr(false, &mut tf).unwrap();
    assert_eq!(tf.data()[0], 0x35);
    assert_eq!(tf.data()[1], 0x02);
    assert_eq!(tf.meta.len, 8);

    let mut tf = Frame::new(
        FrameMeta {
            src_id: 0,
            dest_id: 0x2a,
            id: 0x12,
            ..FrameMeta::default()
        },
        &data,
    )
    .unwrap();
    attach_single_frame_hdr(true, &mut tf).unwrap();
    assert_eq!(tf.data()[0], 0x05);
    assert_eq!(tf.data()[1], 0x01);
    assert_eq!(tf.meta.len, 8);

    let data: [u8; 12] = [1, 2, 3, 4, 5, 6, 7, 8, 9, 10, 11, 12];
    let mut tf2 = Frame::new(FrameMeta::default(), &data).unwrap();
    attach_multi_frame_hdr_and_checksum(false, &mut tf2).unwrap();
    assert_eq!(tf2.data()[0], 0);
    assert_eq!(tf2.data()[1] as usize, data.len() + 2);
    assert_eq!(tf2.data()[2], 0x35);
    assert_eq!(tf2.data()[3], 0x04);
    assert_eq!(tf2.meta.len as usize, data.len() + 4 + 1);

    let mut tf2 = Frame::new(
        FrameMeta {
            src_id: 0,
            dest_id: 0x2a,
            id: 0x12,
            ..FrameMeta::default()
        },
        &data,
    )
    .unwrap();
    attach_multi_frame_hdr_and_checksum(true, &mut tf2).unwrap();
    assert_eq!(tf2.data()[0], 0);
    assert_eq!(tf2.data()[1] as usize, data.len() + 2);
    assert_eq!(tf2.data()[2], 0x05);
    assert_eq!(tf2.data()[3], 0x03);

    // a time broadcast becomes one frame to the broadcast ID
    let data = [1u8, 2, 3, 4];
    let ttf = Frame::new(
        FrameMeta {
            src_id: 0,
            dest_id: 0,
            flag: FrameFlag {
                can_time_broadcast: true,
                uart_telemetry: false,
            },
            ..FrameMeta::default()
        },
        &data,
    )
    .unwrap();
    let mut adaptor = TyCanProtocol::new(0x2a);
    let wire = adaptor.encode(ttf).unwrap();
    assert_eq!(wire.len(), 1);
    assert_eq!(wire[0].data, vec![0x50, 0x05, 1, 2, 3, 4, 0, 0]);
    let id = TyCanId { raw: wire[0].id };
    assert_eq!(id.get_frame_type(), TyCanFrameType::TimeBroadcast.code());
    assert_eq!(id.get_dest_id(), 0xfd);
    assert_eq!(id.get_src_id(), 0);
}

#[test]
fn can_multi_round_trip_and_corruption() {
    // encode a 34-byte request, decode it frame by frame
    let payload: Vec<u8> = (1..=34).collect();
    let meta = FrameMeta {
        src_id: 0,
        dest_id: 0x2a,
        ..FrameMeta::default()
    };
    let frame = Frame::new(meta, &payload).unwrap();
    let mut sender = TyCanProtocol::new(0x00);
    let wire = sender.encode(frame).unwrap();
    assert_eq!(wire.len(), 5);

    let mut receiver = TyCanProtocol::new(0x2a);
    for piece in wire.iter().take(wire.len() - 1) {
        assert!(receiver.handle_can_frame(piece.id, &piece.data).unwrap().is_none());
    }
    let last = wire.last().unwrap();
    let decoded = receiver.handle_can_frame(last.id, &last.data).unwrap().unwrap();
    assert_eq!(decoded.data(), payload.as_slice());
    assert_eq!(decoded.meta.src_id, 0);
    assert_eq!(decoded.meta.dest_id, 0x2a);

    // flip one payload byte in transit: the checksum rejects the transmission
    let mut corrupted: Vec<Vec<u8>> = wire.iter().map(|w| w.data.clone()).collect();
    corrupted[3][1] ^= 0xff;
    let mut receiver = TyCanProtocol::new(0x2a);
    for (i, piece) in wire.iter().enumerate().take(wire.len() - 1) {
        assert!(receiver
            .handle_can_frame(piece.id, &corrupted[i])
            .unwrap()
            .is_none());
    }
    let result = receiver.handle_can_frame(last.id, &corrupted[wire.len() - 1]);
    assert!(result.is_err());
    assert!(result.err().unwrap().is_frame_error());
}

#[test]
fn can_decode_rejects_invalid_single_header() {
    // utilities outside {0x01} or type outside {0x05, 0x0f} is a frame error
    let id = TyCanId::new(0x12, false, TyCanFrameType::Single.code(), 0x2a, 0x00);
    let mut adaptor = TyCanProtocol::new(0x2a);
    let bad_utilities = [0x05u8, 0x02, 1, 2, 3, 4, 5, 6];
    let result = adaptor.handle_can_frame(id.raw, &bad_utilities);
    assert!(result.is_err());
    assert!(result.err().unwrap().is_frame_error());
    let bad_type = [0x06u8, 0x01, 1, 2, 3, 4, 5, 6];
    let result = adaptor.handle_can_frame(id.raw, &bad_type);
    assert!(result.is_err());
    assert!(result.err().unwrap().is_frame_error());
    let good = [0x0fu8, 0x01, 1, 2, 3, 4, 5, 6];
    assert!(adaptor.handle_can_frame(id.raw, &good).unwrap().is_some());
}

#[test]
fn can_decode_drops_own_echo() {
    // a frame whose source is the adaptor's own ID yields nothing
    let id = TyCanId::new(0x12, false, TyCanFrameType::Single.code(), 0x00, 0x2a);
    let mut adaptor = TyCanProtocol::new(0x2a);
    let data = [0x05u8, 0x01, 1, 2, 3, 4, 5, 6];
    assert!(adaptor.handle_can_frame(id.raw, &data).unwrap().is_none());
}

#[test]
fn can_decode_rejects_csp_frames() {
    let id = TyCanId::new(0x12, true, TyCanFrameType::Single.code(), 0x2a, 0x00);
    let mut adaptor = TyCanProtocol::new(0x2a);
    let data = [0x05u8, 0x01, 1, 2, 3, 4, 5, 6];
    let result = adaptor.handle_can_frame(id.raw, &data);
    assert!(result.is_err());
    assert!(result.err().unwrap().is_frame_error());
}

#[test]
fn can_time_broadcast_decodes_timestamp() {
    // a time broadcast `50 05 66 7b 2a 64 00 00` carries the four timestamp bytes
    let id = TyCanId::new(0x01, false, TyCanFrameType::TimeBroadcast.code(), 0xfd, 0x00);
    let mut adaptor = TyCanProtocol::new(0x2a);
    let data = [0x50u8, 0x05, 0x66, 0x7b, 0x2a, 0x64, 0x00, 0x00];
    let frame = adaptor.handle_can_frame(id.raw, &data).unwrap().unwrap();
    assert_eq!(frame.len(), 4);
    assert_eq!(frame.data(), &[0x66, 0x7b, 0x2a, 0x64]);
    assert!(frame.meta.flag.can_time_broadcast);

    let bad = [0x50u8, 0x06, 0x66, 0x7b, 0x2a, 0x64, 0x00, 0x00];
    assert!(adaptor.handle_can_frame(id.raw, &bad).is_err());
}

#[test]
fn can_single_echo_scenario() {
    // a single request to node 0x2a, answered by the echo handler,
    // leaves on the wire as `35 02` plus the envelope and payload
    let mut adaptor = TyCanProtocol::new(0x2a);
    let id = TyCanId::new(0x12, false, TyCanFrameType::Single.code(), 0x2a, 0x00);
    assert_eq!(id.raw, 0x54212);
    let data = [0x05u8, 0x01, 0x20, 0x02, 0x31, 0x32, 0x33, 0x34];
    let bus_frame = adaptor.handle_can_frame(id.raw, &data).unwrap().unwrap();
    assert_eq!(bus_frame.data(), &data[2..]);

    let request = tcsp::envelope::Frame::from_bus(bus_frame).unwrap();
    assert_eq!(request.application(), 2);
    assert_eq!(request.data(), &[0x31, 0x32, 0x33, 0x34]);

    let mut echo = tcsp::application::EchoCommand;
    let response = tcsp::server::Application::handle(&mut echo, &request, 143)
        .unwrap()
        .unwrap();
    let response_bus = response.into_bus().unwrap();
    let wire = adaptor.encode(response_bus).unwrap();
    assert_eq!(wire.len(), 1);
    assert_eq!(wire[0].data, vec![0x35, 0x02, 0x20, 0x02, 0x31, 0x32, 0x33, 0x34]);
    let out_id = TyCanId { raw: wire[0].id };
    assert_eq!(out_id.get_src_id(), 0x2a);
    assert_eq!(out_id.get_dest_id(), 0x00);
    assert_eq!(out_id.get_frame_type(), TyCanFrameType::Single.code());
}

#[test]
fn can_encode_boundaries() {
    let mut sender = TyCanProtocol::new(0x00);
    let mut receiver = TyCanProtocol::new(0x2a);
    let meta = FrameMeta {
        src_id: 0,
        dest_id: 0x2a,
        ..FrameMeta::default()
    };

    // an empty payload still travels as one single frame
    let wire = sender.encode(Frame::new(meta, &[]).unwrap()).unwrap();
    assert_eq!(wire.len(), 1);
    assert_eq!(wire[0].data, vec![0x05, 0x01]);
    let decoded = receiver
        .handle_can_frame(wire[0].id, &wire[0].data)
        .unwrap()
        .unwrap();
    assert_eq!(decoded.len(), 0);

    // six payload bytes are the last single frame, seven the first multi
    let wire = sender.encode(Frame::new(meta, &[0u8; 6]).unwrap()).unwrap();
    assert_eq!(wire.len(), 1);
    let wire = sender.encode(Frame::new(meta, &[0u8; 7]).unwrap()).unwrap();
    assert_eq!(wire.len(), 2);

    // the largest transmission fits, one byte more does not
    let largest = Frame::new(meta, &[1u8; 145]).unwrap();
    let wire = sender.encode(largest).unwrap();
    assert_eq!(wire.len(), 19);
    let mut receiver = TyCanProtocol::new(0x2a);
    let mut last = None;
    for piece in &wire {
        last = receiver.handle_can_frame(piece.id, &piece.data).unwrap();
    }
    assert_eq!(last.unwrap().data(), &[1u8; 145][..]);
    let too_large = Frame::new(meta, &[1u8; 146]).unwrap();
    assert!(sender.encode(too_large).is_err());
}
