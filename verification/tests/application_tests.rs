use tcsp::application::download::DownloadState;
use tcsp::application::upload::UploadState;
use tcsp::application::{
    DownloadCommand, EchoCommand, Reboot, TeleMetry, TimeSync, UdpBackup, UdpControl,
    UploadCommand,
};
use tcsp::application::reset_network::{
    extract_network_flag, make_header, NetworkControl, NetworkControlCommand,
    NetworkControlStatus, NetworkFlag, NetworkInterfaceStatus, NetworkStatus, ResetNetwork,
};
use tcsp::envelope::Frame;
use tcsp::error::DeviceAdaptorError;
use tcsp::server::{Application, Fallback};

use std::cell::RefCell;
use std::rc::Rc;

#[derive(Clone)]
struct RecordingFallback {
    sent: Rc<RefCell<Vec<Vec<u8>>>>,
}

impl RecordingFallback {
    fn new() -> Self {
        RecordingFallback {
            sent: Rc::new(RefCell::new(Vec::new())),
        }
    }
}

impl Fallback for RecordingFallback {
    fn fallback(&mut self, msg: Vec<u8>) -> Result<Vec<u8>, DeviceAdaptorError> {
        self.sent.borrow_mut().push(msg.clone());
        Ok(msg)
    }
}

fn request_frame(app: u8, payload: &[u8]) -> Frame {
    Frame::new_from_slice(app, payload).unwrap()
}

#[test]
fn echo_answers_with_request_payload() {
    let mut echo = EchoCommand;
    let mut request = request_frame(2, &[9, 8, 7]);
    let mut meta = *request.meta();
    meta.src_id = 0;
    meta.dest_id = 0x2a;
    request.set_meta(&meta);
    let response = echo.handle(&request, 148).unwrap().unwrap();
    assert_eq!(response.data(), &[9, 8, 7]);
    assert_eq!(response.meta().src_id, 0x2a);
    assert_eq!(response.meta().dest_id, 0);
}

#[test]
fn echo_request_rejects_long_content() {
    let echo = EchoCommand;
    assert!(echo.request(10, &[0u8; 11]).is_err());
    assert!(echo.request(10, &[0u8; 10]).is_ok());
}

#[test]
fn reboot_acknowledges() {
    let mut reboot = Reboot {};
    let request = request_frame(3, &[]);
    let response = reboot.handle(&request, 148).unwrap().unwrap();
    assert_eq!(response.data(), &b"ok"[..]);
    assert!(reboot.request().is_ok());
}

#[test]
fn telemetry_answers_fixed_record() {
    let fallback = RecordingFallback::new();
    let mut telemetry = TeleMetry::new(fallback.clone());
    let mut request = request_frame(0, &[]);
    let mut meta = *request.meta();
    meta.src_id = 1;
    meta.dest_id = 9;
    request.set_meta(&meta);
    let response = telemetry.handle(&request, 148).unwrap().unwrap();
    assert_eq!(response.data().len(), 100);
    assert_eq!(response.meta().src_id, 9);
    assert_eq!(response.meta().dest_id, 1);
    // the reply (the echoed telemetry code) fills the head of the record
    assert_eq!(&response.data()[..4], &[0x00, 0x00, 0xea, 0x60]);
    assert_eq!(fallback.sent.borrow().len(), 1);
    assert_eq!(fallback.sent.borrow()[0], vec![0x00, 0x00, 0xea, 0x60]);
}

#[test]
fn time_sync_forwards_timestamp() {
    let fallback = RecordingFallback::new();
    let mut time_sync = TimeSync::new(fallback.clone());
    let request = request_frame(1, &[0x66, 0x7b, 0x2a, 0x64]);
    let response = time_sync.handle(&request, 148).unwrap();
    assert!(response.is_none());
    assert_eq!(fallback.sent.borrow()[0], vec![0x66, 0x7b, 0x2a, 0x64, 0, 0]);

    let short = request_frame(1, &[0x66, 0x7b]);
    assert!(time_sync.handle(&short, 148).is_err());

    let req = TimeSync::<RecordingFallback>::request(0x667b2a64).unwrap();
    assert_eq!(req.data(), &[0x66, 0x7b, 0x2a, 0x64]);
}

#[test]
fn udp_backup_pads_and_forwards() {
    let fallback = RecordingFallback::new();
    let mut backup = UdpBackup::new(fallback.clone());
    let request = request_frame(6, &[1, 2, 3]);
    assert!(backup.handle(&request, 148).unwrap().is_none());
    let sent = fallback.sent.borrow();
    assert_eq!(sent[0].len(), 124);
    assert_eq!(&sent[0][..3], &[1, 2, 3]);
    assert!(sent[0][3..].iter().all(|b| *b == 0));
}

#[test]
fn udp_backup_rejects_long_command() {
    let fallback = RecordingFallback::new();
    let mut backup = UdpBackup::new(fallback);
    let request = request_frame(6, &[0u8; 125]);
    assert!(backup.handle(&request, 148).is_err());
}

#[test]
fn udp_backup_generate_request_chunks() {
    let data: Vec<u8> = (0..=249u8).collect();
    let frames = UdpBackup::<RecordingFallback>::generate_request(data.clone(), 0x44).unwrap();
    assert_eq!(frames.len(), 3);
    assert_eq!(frames[0].data(), &data[..124]);
    assert_eq!(frames[1].data(), &data[124..248]);
    assert_eq!(frames[2].data(), &data[248..]);
    assert_eq!(frames[0].meta().src_id, 0);
    assert_eq!(frames[0].meta().dest_id, 0x44);
}

#[test]
fn upload_state_machine_walks() {
    let mut upload = UploadCommand::new(RecordingFallback::new());
    assert!(matches!(upload.state, UploadState::UploadStart));

    // the first frame announces the file mode
    let request = request_frame(4, &[0x07, 1, 2]);
    let response = upload.handle(&request, 148).unwrap().unwrap();
    assert_eq!(response.data(), &[0x07, 0xaa]);
    assert!(matches!(upload.state, UploadState::UploadWaiting(0x07)));

    // the path frame would have to reserve 256 metadata bytes, more than a
    // frame can carry, so it is rejected and the state is kept
    let mut request = request_frame(4, &[0u8; 150]);
    let mut meta = *request.meta();
    meta.id = 0x07;
    request.set_meta(&meta);
    assert!(upload.handle(&request, 148).is_err());
    assert!(matches!(upload.state, UploadState::UploadWaiting(0x07)));

    // an empty frame is rejected too
    let empty = request_frame(4, &[]);
    let mut fresh = UploadCommand::new(RecordingFallback::new());
    assert!(fresh.handle(&empty, 148).is_err());
}

#[test]
fn download_state_machine_serves_chunks() {
    let mut download = DownloadCommand::new(RecordingFallback::new());
    assert!(matches!(download.state, DownloadState::DownloadStart));

    // the request names the path; reading the file is the host's job
    let mut request = request_frame(7, b"/tmp/blob");
    let mut meta = *request.meta();
    meta.id = 0x03;
    request.set_meta(&meta);
    assert!(download.handle(&request, 148).unwrap().is_none());
    assert_eq!(download.take_pending_read().unwrap(), b"/tmp/blob".to_vec());

    // the host hands the content in; the first chunk is announced
    let content: Vec<u8> = (0..100u8).collect();
    let response = download.provide_file(&content).unwrap().unwrap();
    assert_eq!(&response.data()[..6], &[0x03, 0, 0, 0, 1, 0xaa]);
    assert_eq!(&response.data()[6..], content.as_slice());
    assert!(matches!(download.state, DownloadState::Downloading(0x03, 1)));

    // serving the last chunk starts the machine over
    let mut request = request_frame(7, &[0x03, 0, 0]);
    let mut meta = *request.meta();
    meta.id = 0x03;
    request.set_meta(&meta);
    let response = download.handle(&request, 148).unwrap().unwrap();
    assert_eq!(&response.data()[..6], &[0x03, 0, 0, 0, 1, 0xaa]);
    assert!(matches!(download.state, DownloadState::DownloadStart));

    // asking for a chunk nobody has is an error
    let mut download = DownloadCommand::new(RecordingFallback::new());
    download.state = DownloadState::Downloading(0x03, 4);
    let mut request = request_frame(7, &[0x03, 0, 9]);
    let mut meta = *request.meta();
    meta.id = 0x03;
    request.set_meta(&meta);
    assert!(download.handle(&request, 148).is_err());
}

#[test]
fn test_separate_udp_control() {
    // 150 bytes arrive as two slices: the first is stored, the last is
    // forwarded together with the stored bytes
    let fallback = RecordingFallback::new();
    let mut udp = UdpControl::new(fallback.clone());

    let mut first = vec![0u8; 124];
    first[0] = 0;
    let frame = request_frame(6, &first);
    udp.handle(&frame, 124).unwrap();
    let mut second = vec![0u8; 30];
    second[0] = 0x80;
    let frame2 = request_frame(6, &second);
    udp.handle(&frame2, 124).unwrap();
    assert_eq!(fallback.sent.borrow().len(), 1);
    assert_eq!(fallback.sent.borrow()[0].len(), 5 + 123 + 29);
    assert_eq!(&fallback.sent.borrow()[0][..5], &[54, 48, 48, 48, 50]);

    // 300 bytes arrive as three slices
    let frame = request_frame(6, &first);
    udp.handle(&frame, 124).unwrap();
    let frame = request_frame(6, &first);
    udp.handle(&frame, 124).unwrap();
    assert_eq!(fallback.sent.borrow().len(), 2);
    let mut last = vec![0u8; 59];
    last[0] = 0x80;
    let frame2 = request_frame(6, &last);
    udp.handle(&frame2, 124).unwrap();
    assert_eq!(fallback.sent.borrow().len(), 3);
}

#[test]
fn udp_control_generate_request_splits() {
    let frames = UdpControl::<RecordingFallback>::generate_request(&[1u8; 150], 143).unwrap();
    assert_eq!(frames.len(), 2);
    assert_eq!(frames[0].data().len(), 143);
    assert_eq!(frames[0].data()[0], 0);
    assert_eq!(&frames[0].data()[1..], &[1u8; 142][..]);
    assert_eq!(frames[1].data().len(), 9);
    assert_eq!(&frames[1].data()[1..], &[1u8; 8][..]);
}

struct StubNetworkControl {
    reset_ok: bool,
}

impl NetworkControl for StubNetworkControl {
    fn list_status(&mut self) -> NetworkStatus {
        let mut status = NetworkStatus::unknown();
        status.eth0 = NetworkInterfaceStatus {
            ip: 0xc0a80001,
            state: NetworkFlag { bits: 1 | 8 },
        };
        status
    }

    fn reset_all(&mut self) -> bool {
        self.reset_ok
    }
}

#[test]
fn reset_network_lists_and_resets() {
    let mut handler = ResetNetwork::new(StubNetworkControl { reset_ok: true });

    // the list command answers with a header and 64 status bytes
    let request = request_frame(5, &[1]);
    let response = handler.handle(&request, 148).unwrap().unwrap();
    assert_eq!(response.data().len(), 65);
    assert_eq!(response.data()[0], 1 + 64);
    assert_eq!(&response.data()[1..5], &[0xc0, 0xa8, 0x00, 0x01]);
    assert_eq!(&response.data()[5..9], &[0, 0, 0, 9]);

    // the reset command answers with the run status
    let request = request_frame(5, &[2]);
    let response = handler.handle(&request, 148).unwrap().unwrap();
    assert_eq!(response.data(), &[2 + 64]);

    let mut failing = ResetNetwork::new(StubNetworkControl { reset_ok: false });
    let request = request_frame(5, &[2]);
    let response = failing.handle(&request, 148).unwrap().unwrap();
    assert_eq!(response.data(), &[2 + 2 * 64]);

    // an unknown command byte is reported as such
    let request = request_frame(5, &[9]);
    let response = handler.handle(&request, 148).unwrap().unwrap();
    assert_eq!(response.data(), &[3 * 64]);

    // an empty command frame is rejected
    let request = request_frame(5, &[]);
    assert!(handler.handle(&request, 148).is_err());
}

#[test]
fn reset_network_header_packs_command_and_status() {
    let header = make_header(NetworkControlCommand::List, NetworkControlStatus::RunOk);
    assert_eq!(header.cmd_and_status, 1 + 64);
    let header = make_header(
        NetworkControlCommand::ResetAll,
        NetworkControlStatus::RunError,
    );
    assert_eq!(header.cmd_and_status, 2 + 128);
}

#[test]
fn extract_network_flag_reads_ifconfig_line() {
    let line = b"eth0: flags=4163<UP,BROADCAST,RUNNING,MULTICAST>  mtu 1500";
    let flag = extract_network_flag(line);
    assert_eq!(flag.bits, 1 | 4 | 8 | 16);

    let unknown = b"eth0: flags=4163<UP,WOBBLY>  mtu 1500";
    assert_eq!(extract_network_flag(unknown).bits, 1);

    assert_eq!(extract_network_flag(b"no markers here").bits, 0);

    let mut flag = NetworkFlag { bits: 0x01020304 };
    assert_eq!(flag.as_network_nedian(), vec![0x01, 0x02, 0x03, 0x04]);
    flag.bits = 9;
    assert_eq!(flag.as_network_nedian(), vec![0, 0, 0, 9]);
}
