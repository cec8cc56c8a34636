use tcsp::frame::{Frame, FrameMeta};
use tcsp::uart::{
    crc8, fill_uart_frame, uart_decode, uart_decode_checked, uart_decode_with_markers, uart_mtu,
    Command, DataType, TeleCommand, TyUartProtocol,
};

#[test]
fn tyuart_from_slice_to_self_test() {
    let input = [
        0xEB, 0x90, 0x01, 0x00, 0x08, 0x35, 0x10, 0x01, 0x02, 0x03, 0x04, 0x05, 0x06, 0x07,
    ];
    let parsed = TyUartProtocol::from_slice_to_self(&input).unwrap();
    assert_eq!(parsed.platform_id, 0x01);
    assert_eq!(parsed.data_len, 0x0008);
    assert_eq!(parsed.data_type, DataType::TeleCommand);
    assert_eq!(
        parsed.command_type,
        Command::TeleCommand(TeleCommand::BasicTeleCommand)
    );
    assert_eq!(parsed.req_id, 0x01);
    assert_eq!(parsed.data, vec![0x02, 0x03, 0x04, 0x05, 0x06]);
    assert_eq!(parsed.checksum, 0x07);
}

#[test]
fn protocol_tyuart_from_self_to_slice_test() {
    let input = [
        0xEB, 0x90, 0x01, 0x00, 0x08, 0x35, 0x10, 0x01, 0x02, 0x03, 0x04, 0x05, 0x06, 0x07,
    ];
    let parsed = TyUartProtocol::from_slice_to_self(&input).unwrap();
    let rebuilt = parsed.from_self_to_slice();
    assert_eq!(rebuilt, input.to_vec());
}

#[test]
fn tyuart_from_self_to_slice_test() {
    let proto = TyUartProtocol {
        platform_id: 0x01,
        data_len: 0x0008,
        data_type: DataType::TeleCommand,
        command_type: Command::TeleCommand(TeleCommand::BasicTeleCommand),
        req_id: 0x01,
        data: vec![0x02, 0x03, 0x04, 0x05, 0x06],
        checksum: 0x07,
    };
    assert_eq!(
        proto.from_self_to_slice(),
        vec![0xEB, 0x90, 0x01, 0x00, 0x08, 0x35, 0x10, 0x01, 0x02, 0x03, 0x04, 0x05, 0x06, 0x07]
    );
}

#[test]
fn uart_wire_parse_rejections() {
    // wrong sentinel
    assert!(TyUartProtocol::from_slice_to_self(&[
        0xEA, 0x90, 0x01, 0x00, 0x08, 0x35, 0x10, 0x01, 0x02, 0x03, 0x04, 0x05, 0x06, 0x07,
    ])
    .is_err());
    // unknown data type
    assert!(TyUartProtocol::from_slice_to_self(&[
        0xEB, 0x90, 0x01, 0x00, 0x08, 0x36, 0x10, 0x01, 0x02, 0x03, 0x04, 0x05, 0x06, 0x07,
    ])
    .is_err());
    // unknown command type
    assert!(TyUartProtocol::from_slice_to_self(&[
        0xEB, 0x90, 0x01, 0x00, 0x08, 0x35, 0x13, 0x01, 0x02, 0x03, 0x04, 0x05, 0x06, 0x07,
    ])
    .is_err());
    // length field does not match the input length
    assert!(TyUartProtocol::from_slice_to_self(&[
        0xEB, 0x90, 0x01, 0x00, 0x09, 0x35, 0x10, 0x01, 0x02, 0x03, 0x04, 0x05, 0x06, 0x07,
    ])
    .is_err());
}

#[test]
fn uart_decode_fills_metadata() {
    let input = [
        0xEB, 0x90, 0x01, 0x00, 0x08, 0x35, 0x10, 0x01, 0x02, 0x03, 0x04, 0x05, 0x06, 0x07,
    ];
    let frame = uart_decode(&input).unwrap();
    assert_eq!(frame.meta.len, 0x0005);
    assert_eq!(frame.meta.data_type, 0x35);
    assert_eq!(frame.meta.command_type, 0x10);
    assert!(frame.meta.flag == tcsp::frame::FrameFlag::empty());
    assert_eq!(frame.meta.dest_id, 0x01);
    assert_eq!(frame.meta.id, 0x01);
    assert_eq!(frame.data(), &[0x02, 0x03, 0x04, 0x05, 0x06]);
}

#[test]
fn uart_crc_check_value() {
    // the CRC-8 with polynomial 0x80 and initial value 0xFF over the
    // checksummed region of the documented example frame
    assert_eq!(crc8(&[0x35, 0x10, 0x01, 0x02, 0x03, 0x04, 0x05, 0x06]), 0x00);
    assert_eq!(crc8(&[]), 0xff);
}

#[test]
fn uart_decode_checked_verifies_crc() {
    // rebuild the example frame with its true CRC: the checked decoder
    // accepts it, and rejects the frame with the stored dummy byte
    let mut wire = vec![0xEB, 0x90, 0x01, 0x00, 0x08, 0x35, 0x10, 0x01, 0x02, 0x03, 0x04, 0x05, 0x06];
    let crc = crc8(&wire[5..]);
    let mut good = wire.clone();
    good.push(crc);
    assert!(uart_decode_checked(&good).is_ok());
    wire.push(crc.wrapping_add(1));
    assert!(uart_decode_checked(&wire).is_err());
    assert!(uart_decode(&wire).is_ok());
}

#[test]
fn uart_fill_frame_builds_wire_image() {
    let meta = FrameMeta {
        id: 0x01,
        command_type: 0x10,
        ..FrameMeta::default()
    };
    let mut frame = Frame::new(meta, &[0x02, 0x03, 0x04, 0x05, 0x06]).unwrap();
    fill_uart_frame(0x01, &mut frame).unwrap();
    let wire = frame.data().to_vec();
    assert_eq!(
        &wire[..13],
        &[0xEB, 0x90, 0x01, 0x00, 0x08, 0x35, 0x10, 0x01, 0x02, 0x03, 0x04, 0x05, 0x06]
    );
    assert_eq!(wire[13], crc8(&wire[5..13]));
    // what the peer sends can be read back
    let parsed = TyUartProtocol::from_slice_to_self(&wire).unwrap();
    assert_eq!(parsed.data, vec![0x02, 0x03, 0x04, 0x05, 0x06]);
}

#[test]
fn uart_mtu_depends_on_telemetry_flag() {
    let mut flag = tcsp::frame::FrameFlag::empty();
    assert_eq!(uart_mtu(flag), 128);
    flag.uart_telemetry = true;
    assert_eq!(uart_mtu(flag), 150);
}

#[test]
fn uart_frame_without_payload_parses() {
    let wire = [0xEBu8, 0x90, 0x01, 0x00, 0x03, 0x35, 0x10, 0x07, 0x99];
    let parsed = TyUartProtocol::from_slice_to_self(&wire).unwrap();
    assert_eq!(parsed.data_len, 3);
    assert!(parsed.data.is_empty());
    let frame = uart_decode(&wire).unwrap();
    assert_eq!(frame.meta.len, 0);
    // a length field below the three typed bytes is rejected
    let too_short = [0xEBu8, 0x90, 0x01, 0x00, 0x02, 0x35, 0x10, 0x07, 0x99];
    assert!(TyUartProtocol::from_slice_to_self(&too_short).is_err());
}

#[test]
fn uart_decode_with_markers_prepends_selector() {
    // an upload-request command gets `20 04` in front of its payload
    let wire = [0xEBu8, 0x90, 0x01, 0x00, 0x08, 0x35, 0xA0, 0x01, 0x02, 0x03, 0x04, 0x05, 0x06, 0x07];
    let frame = uart_decode_with_markers(&wire).unwrap();
    assert_eq!(frame.data(), &[0x20, 0x04, 0x02, 0x03, 0x04, 0x05, 0x06]);
    // a download command gets `20 05`
    let wire = [0xEBu8, 0x90, 0x01, 0x00, 0x08, 0x35, 0xC0, 0x01, 0x02, 0x03, 0x04, 0x05, 0x06, 0x07];
    let frame = uart_decode_with_markers(&wire).unwrap();
    assert_eq!(frame.data(), &[0x20, 0x05, 0x02, 0x03, 0x04, 0x05, 0x06]);
    // any other command is decoded as on the default path
    let wire = [0xEBu8, 0x90, 0x01, 0x00, 0x08, 0x35, 0x10, 0x01, 0x02, 0x03, 0x04, 0x05, 0x06, 0x07];
    let frame = uart_decode_with_markers(&wire).unwrap();
    assert_eq!(frame.data(), &[0x02, 0x03, 0x04, 0x05, 0x06]);
}
