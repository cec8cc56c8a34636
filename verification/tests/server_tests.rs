use tcsp::application::{EchoCommand, TeleMetry, TimeSync};
use tcsp::channel::Channel;
use tcsp::envelope;
use tcsp::error::DeviceAdaptorError;
use tcsp::application::telemetry::fill_record;
use tcsp::frame::{Frame, FrameFlag, FrameMeta};
use tcsp::server::{Application, DeviceAdaptor, Fallback, TcspServerBuilder};

#[derive(Clone)]
struct DummyFallback;

impl Fallback for DummyFallback {
    fn fallback(&mut self, msg: Vec<u8>) -> Result<Vec<u8>, DeviceAdaptorError> {
        Ok(msg)
    }
}

struct Foo;

impl Application for Foo {
    fn application_id(&self) -> u8 {
        0
    }

    fn application_name(&self) -> &'static str {
        "Foo"
    }

    fn handle(
        &mut self,
        _frame: &envelope::Frame,
        _mtu: u16,
    ) -> Result<Option<envelope::Frame>, DeviceAdaptorError> {
        Ok(None)
    }
}

enum TestApp {
    Tel(TeleMetry<DummyFallback>),
    Echo(EchoCommand),
    Time(TimeSync<DummyFallback>),
    Foo(Foo),
}

impl Application for TestApp {
    fn application_id(&self) -> u8 {
        match self {
            TestApp::Tel(a) => a.application_id(),
            TestApp::Echo(a) => a.application_id(),
            TestApp::Time(a) => a.application_id(),
            TestApp::Foo(a) => a.application_id(),
        }
    }

    fn application_name(&self) -> &'static str {
        match self {
            TestApp::Tel(a) => a.application_name(),
            TestApp::Echo(a) => a.application_name(),
            TestApp::Time(a) => a.application_name(),
            TestApp::Foo(a) => a.application_name(),
        }
    }

    fn handle(
        &mut self,
        frame: &envelope::Frame,
        mtu: u16,
    ) -> Result<Option<envelope::Frame>, DeviceAdaptorError> {
        match self {
            TestApp::Tel(a) => a.handle(frame, mtu),
            TestApp::Echo(a) => a.handle(frame, mtu),
            TestApp::Time(a) => a.handle(frame, mtu),
            TestApp::Foo(a) => a.handle(frame, mtu),
        }
    }
}

#[test]
fn envelope_dispatch_round_trip() {
    // a channel adaptor feeds `20 02` plus 42 payload bytes; the echo
    // handler answers, and the envelope is prepended again
    let mut channel = Channel::new();
    let mut request: Vec<u8> = vec![0x20, 0x02];
    request.extend(1..=42u8);
    let bus_frame = Frame::new(FrameMeta::default(), &request).unwrap();
    channel.push_incoming(bus_frame);

    let server = TcspServerBuilder::new(channel)
        .with_application(TestApp::Echo(EchoCommand))
        .build();
    let mut server = match server {
        Ok(s) => s,
        Err(_) => panic!("no duplicate IDs were configured"),
    };
    server.handle().unwrap();
    let mut channel = server.into_adaptor();
    let response = channel.pop_outgoing().unwrap();
    assert_eq!(response.data(), request.as_slice());
}

#[test]
fn server_channel_round_trip() {
    let mut channel = Channel::new();

    // a telemetry request
    let telemetry_req = TeleMetry::<DummyFallback>::request(0, 0)
        .unwrap()
        .into_bus()
        .unwrap();
    channel.push_incoming(telemetry_req);

    // an echo request
    let content: Vec<u8> = (1..=42).collect();
    let echo = EchoCommand;
    let echo_req = echo.request(150, &content).unwrap().into_bus().unwrap();
    channel.push_incoming(echo_req);

    // a time-sync request
    let time_req = TimeSync::<DummyFallback>::request(0x667b2a64)
        .unwrap()
        .into_bus()
        .unwrap();
    channel.push_incoming(time_req);

    let server = TcspServerBuilder::new(channel)
        .with_application(TestApp::Tel(TeleMetry::new(DummyFallback)))
        .with_application(TestApp::Echo(EchoCommand))
        .with_application(TestApp::Time(TimeSync::new(DummyFallback)))
        .build();
    let mut server = match server {
        Ok(s) => s,
        Err(_) => panic!("no duplicate IDs were configured"),
    };
    server.handle().unwrap();
    server.handle().unwrap();
    server.handle().unwrap();

    let mut channel = server.into_adaptor();
    // the telemetry response: envelope plus the 100-byte record
    let resp = channel.pop_outgoing().unwrap();
    assert_eq!(resp.meta.len as usize, 102);
    // the echo response carries the request back verbatim
    let resp = channel.pop_outgoing().unwrap();
    let frame = envelope::Frame::from_bus(resp).unwrap();
    assert_eq!(frame.application(), 2);
    assert_eq!(&frame.data()[..42], content.as_slice());
    // time sync produces no response
    assert!(channel.pop_outgoing().is_none());
}

#[test]
fn test_duplicate_id() {
    let channel = Channel::new();
    let result = TcspServerBuilder::new(channel)
        .with_application(TestApp::Tel(TeleMetry::new(DummyFallback)))
        .with_application(TestApp::Foo(Foo))
        .build();
    let error = match result {
        Ok(_) => panic!("two handlers claimed application ID 0"),
        Err(e) => e,
    };
    assert_eq!(error.id(), 0);
    assert_eq!(error.first_name(), "Telemetry");
    assert_eq!(error.second_name(), "Foo");
    let message = format!(
        "Duplicate application id of {} and {}, with same id {}",
        error.first_name(),
        error.second_name(),
        error.id()
    );
    assert_eq!(
        message,
        "Duplicate application id of Telemetry and Foo, with same id 0"
    );
}

#[test]
fn dispatch_counts_absent_handlers() {
    // a frame addressed to an application nobody claims only bumps the
    // not-found counter
    let mut channel = Channel::new();
    let bus_frame = Frame::new(FrameMeta::default(), &[0x20, 0x63, 1, 2, 3]).unwrap();
    channel.push_incoming(bus_frame);
    let server = TcspServerBuilder::new(channel)
        .with_application(TestApp::Echo(EchoCommand))
        .build();
    let mut server = match server {
        Ok(s) => s,
        Err(_) => panic!("no duplicate IDs were configured"),
    };
    assert_eq!(server.not_found_count(), 0);
    server.handle().unwrap();
    assert_eq!(server.not_found_count(), 1);
    let mut channel = server.into_adaptor();
    assert!(channel.pop_outgoing().is_none());
}

#[test]
fn dispatch_rejects_bad_version() {
    let mut channel = Channel::new();
    let bus_frame = Frame::new(FrameMeta::default(), &[0x21, 0x02, 1, 2, 3]).unwrap();
    channel.push_incoming(bus_frame);
    let server = TcspServerBuilder::new(channel)
        .with_application(TestApp::Echo(EchoCommand))
        .build();
    let mut server = match server {
        Ok(s) => s,
        Err(_) => panic!("no duplicate IDs were configured"),
    };
    assert!(server.handle().is_err());
}

#[test]
fn channel_close_makes_sends_fail() {
    let mut channel = Channel::new();
    channel.close();
    let frame = Frame::default();
    let result = channel.send(frame);
    assert!(result.is_err());
    assert!(result.err().unwrap().is_bus_error());
    assert!(matches!(channel.recv(), Err(e) if e.is_empty()));
}

#[test]
fn envelope_skips_time_broadcast_markers_when_present() {
    // the adaptor normally strips the `50 05` markers itself; the codec
    // skips them when a frame still carries them
    let mut meta = FrameMeta::default();
    meta.flag = FrameFlag {
        can_time_broadcast: true,
        uart_telemetry: false,
    };
    let with_markers = Frame::new(meta, &[0x50, 0x05, 0x66, 0x7b, 0x2a, 0x64]).unwrap();
    let decoded = envelope::Frame::from_bus(with_markers).unwrap();
    assert_eq!(decoded.application(), 1);
    assert_eq!(decoded.data(), &[0x66, 0x7b, 0x2a, 0x64]);

    let without_markers = Frame::new(meta, &[0x66, 0x7b, 0x2a, 0x64]).unwrap();
    let decoded = envelope::Frame::from_bus(without_markers).unwrap();
    assert_eq!(decoded.application(), 1);
    assert_eq!(decoded.data(), &[0x66, 0x7b, 0x2a, 0x64]);
}

#[test]
fn server_absorbs_empty_poll() {
    // an empty channel is not an error for the server's step
    let channel = Channel::new();
    let server = TcspServerBuilder::new(channel)
        .with_application(TestApp::Echo(EchoCommand))
        .build();
    let mut server = match server {
        Ok(s) => s,
        Err(_) => panic!("no duplicate IDs were configured"),
    };
    assert!(server.handle().is_ok());
}

#[test]
fn telemetry_record_spec_matches_reply_prefix() {
    let mut record = envelope::Frame::new(0);
    record.set_len(100).unwrap();
    let reply = vec![7u8; 130];
    fill_record(&mut record, &reply);
    assert_eq!(record.data(), &[7u8; 100][..]);

    let mut record = envelope::Frame::new(0);
    record.set_len(100).unwrap();
    fill_record(&mut record, &[1, 2, 3]);
    assert_eq!(&record.data()[..3], &[1, 2, 3]);
    assert!(record.data()[3..].iter().all(|b| *b == 0));
}
