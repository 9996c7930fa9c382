use pjlink_rs232_bridge::connector::{
    ConnectorAction, ConnectorError, ConnectorEvent, ConnectorState, PjLinkRS232Connector,
    PjLinkRS232ConnectorOptions, SerialDataBits, SerialFlowControl, SerialParity, SerialSettings,
    SerialStopBits, CONNECTOR_THREAD_MIN_TIMEOUT,
};
use pjlink_rs232_bridge::connector_link::{PjLinkRS232MessageRequest, PjLinkRS232MessageResponse};

fn line(data_bits: u8, parity: char, stop_bits: u8) -> PjLinkRS232ConnectorOptions {
    PjLinkRS232ConnectorOptions {
        serial_port: "/dev/ttyUSB0".to_string(),
        baud_rate: 19200,
        data_bits,
        parity,
        stop_bits,
        hardware_flow_control: false,
        software_flow_control: false,
    }
}

fn settings(
    data_bits: SerialDataBits,
    parity: SerialParity,
    stop_bits: SerialStopBits,
    flow_control: SerialFlowControl,
) -> SerialSettings {
    SerialSettings {
        serial_port: "/dev/ttyUSB0".to_string(),
        baud_rate: 19200,
        data_bits,
        parity,
        stop_bits,
        flow_control,
    }
}

#[test]
fn the_usual_line_is_eight_bits_no_parity_one_stop_bit() {
    assert_eq!(
        PjLinkRS232Connector::build_connection(line(8, 'N', 1)),
        Ok(settings(
            SerialDataBits::Eight,
            SerialParity::Disabled,
            SerialStopBits::One,
            SerialFlowControl::Disabled
        ))
    );
}

#[test]
fn every_supported_setting_is_taken_over() {
    let off = SerialFlowControl::Disabled;
    assert_eq!(
        PjLinkRS232Connector::build_connection(line(7, 'E', 2)),
        Ok(settings(SerialDataBits::Seven, SerialParity::Even, SerialStopBits::Two, off))
    );
    assert_eq!(
        PjLinkRS232Connector::build_connection(line(6, 'O', 1)),
        Ok(settings(SerialDataBits::Six, SerialParity::Odd, SerialStopBits::One, off))
    );
    assert_eq!(
        PjLinkRS232Connector::build_connection(line(5, 'N', 2)),
        Ok(settings(SerialDataBits::Five, SerialParity::Disabled, SerialStopBits::Two, off))
    );
}

#[test]
fn hardware_flow_control_wins_over_software() {
    let with = |hardware: bool, software: bool| {
        let mut options = line(8, 'N', 1);
        options.hardware_flow_control = hardware;
        options.software_flow_control = software;
        PjLinkRS232Connector::build_connection(options).map(|settings| settings.flow_control)
    };
    assert_eq!(with(false, false), Ok(SerialFlowControl::Disabled));
    assert_eq!(with(false, true), Ok(SerialFlowControl::Software));
    assert_eq!(with(true, false), Ok(SerialFlowControl::Hardware));
    assert_eq!(with(true, true), Ok(SerialFlowControl::Hardware));
}

#[test]
fn unsupported_data_bits_are_refused_first() {
    assert_eq!(
        PjLinkRS232Connector::build_connection(line(9, 'X', 3)),
        Err(ConnectorError::UnsupportedDataBits(9))
    );
    assert_eq!(
        PjLinkRS232Connector::build_connection(line(4, 'N', 1)),
        Err(ConnectorError::UnsupportedDataBits(4))
    );
    assert_eq!(
        PjLinkRS232Connector::build_connection(line(0, 'N', 1)),
        Err(ConnectorError::UnsupportedDataBits(0))
    );
}

#[test]
fn unsupported_parity_is_refused_before_stop_bits() {
    assert_eq!(
        PjLinkRS232Connector::build_connection(line(8, 'X', 3)),
        Err(ConnectorError::UnsupportedParity('X'))
    );
    assert_eq!(
        PjLinkRS232Connector::build_connection(line(8, 'n', 1)),
        Err(ConnectorError::UnsupportedParity('n'))
    );
}

#[test]
fn unsupported_stop_bits_are_refused() {
    assert_eq!(
        PjLinkRS232Connector::build_connection(line(8, 'N', 0)),
        Err(ConnectorError::UnsupportedStopBits(0))
    );
    assert_eq!(
        PjLinkRS232Connector::build_connection(line(8, 'N', 3)),
        Err(ConnectorError::UnsupportedStopBits(3))
    );
}

#[test]
fn the_wait_is_never_under_fifty_milliseconds() {
    assert_eq!(CONNECTOR_THREAD_MIN_TIMEOUT, 50);
    assert_eq!(PjLinkRS232Connector::effective_timeout(0), 50);
    assert_eq!(PjLinkRS232Connector::effective_timeout(49), 50);
    assert_eq!(PjLinkRS232Connector::effective_timeout(50), 50);
    assert_eq!(PjLinkRS232Connector::effective_timeout(51), 51);
    assert_eq!(PjLinkRS232Connector::effective_timeout(200), 200);
    assert_eq!(PjLinkRS232Connector::effective_timeout(u32::MAX), u32::MAX);
}

#[test]
fn the_read_buffer_is_as_long_as_what_has_arrived() {
    assert_eq!(PjLinkRS232Connector::read_buffer(None), Vec::<u8>::new());
    assert_eq!(PjLinkRS232Connector::read_buffer(Some(0)), Vec::<u8>::new());
    assert_eq!(PjLinkRS232Connector::read_buffer(Some(1)), vec![0]);
    assert_eq!(PjLinkRS232Connector::read_buffer(Some(7)), vec![0; 7]);
}

fn request(message: &[u8], timeout: u32) -> ConnectorEvent {
    ConnectorEvent::Request(PjLinkRS232MessageRequest {
        message: message.to_vec(),
        timeout,
        stop_processing: false,
    })
}

#[test]
fn a_worker_begins_by_waiting_for_a_request() {
    let (connector, first) = PjLinkRS232Connector::start();
    assert_eq!(connector.state(), ConnectorState::Idle);
    assert_eq!(first, ConnectorAction::Receive);
}

#[test]
fn an_exchange_goes_from_the_request_to_the_reply() {
    let (mut connector, _) = PjLinkRS232Connector::start();
    assert_eq!(
        connector.step(request(b"PON\r", 120)),
        Some(ConnectorAction::Write(b"PON\r".to_vec()))
    );
    assert_eq!(connector.state(), ConnectorState::Writing { wait: 120 });
    assert_eq!(
        connector.step(ConnectorEvent::Written { ok: true }),
        Some(ConnectorAction::SetTimeout(120))
    );
    assert_eq!(connector.state(), ConnectorState::SettingTimeout { wait: 120 });
    assert_eq!(
        connector.step(ConnectorEvent::TimeoutSet { ok: true }),
        Some(ConnectorAction::Sleep(120))
    );
    assert_eq!(connector.state(), ConnectorState::Sleeping);
    assert_eq!(connector.step(ConnectorEvent::Slept), Some(ConnectorAction::Count));
    assert_eq!(connector.state(), ConnectorState::Counting);
    assert_eq!(
        connector.step(ConnectorEvent::Counted { available: Some(7) }),
        Some(ConnectorAction::Read(vec![0; 7]))
    );
    assert_eq!(connector.state(), ConnectorState::Reading);
    assert_eq!(
        connector.step(ConnectorEvent::Read { buffer: b"PON_OK\r".to_vec(), ok: true }),
        Some(ConnectorAction::Reply(PjLinkRS232MessageResponse {
            response: b"PON_OK\r".to_vec(),
            elapsed_time: 0
        }))
    );
    assert_eq!(connector.state(), ConnectorState::Replying);
    assert_eq!(
        connector.step(ConnectorEvent::Replied { ok: true }),
        Some(ConnectorAction::Receive)
    );
    assert_eq!(connector.state(), ConnectorState::Idle);
}

#[test]
fn a_short_wait_is_raised_to_the_minimum() {
    let (mut connector, _) = PjLinkRS232Connector::start();
    connector.step(request(b"Q", 10));
    assert_eq!(
        connector.step(ConnectorEvent::Written { ok: true }),
        Some(ConnectorAction::SetTimeout(50))
    );
    assert_eq!(
        connector.step(ConnectorEvent::TimeoutSet { ok: true }),
        Some(ConnectorAction::Sleep(50))
    );
}

#[test]
fn failures_on_the_serial_line_still_end_in_a_reply() {
    let (mut connector, _) = PjLinkRS232Connector::start();
    assert_eq!(connector.step(request(b"PON\r", 0)), Some(ConnectorAction::Write(b"PON\r".to_vec())));
    assert_eq!(
        connector.step(ConnectorEvent::Written { ok: false }),
        Some(ConnectorAction::SetTimeout(50))
    );
    assert_eq!(
        connector.step(ConnectorEvent::TimeoutSet { ok: false }),
        Some(ConnectorAction::Sleep(50))
    );
    assert_eq!(connector.step(ConnectorEvent::Slept), Some(ConnectorAction::Count));
    assert_eq!(
        connector.step(ConnectorEvent::Counted { available: None }),
        Some(ConnectorAction::Read(vec![]))
    );
    assert_eq!(
        connector.step(ConnectorEvent::Read { buffer: vec![], ok: false }),
        Some(ConnectorAction::Reply(PjLinkRS232MessageResponse {
            response: vec![],
            elapsed_time: 0
        }))
    );
    assert_eq!(
        connector.step(ConnectorEvent::Replied { ok: false }),
        Some(ConnectorAction::Receive)
    );
    assert_eq!(connector.state(), ConnectorState::Idle);
}

#[test]
fn a_failed_read_replies_with_the_buffer_as_it_is() {
    let (mut connector, _) = PjLinkRS232Connector::start();
    connector.step(request(b"Q", 50));
    connector.step(ConnectorEvent::Written { ok: true });
    connector.step(ConnectorEvent::TimeoutSet { ok: true });
    connector.step(ConnectorEvent::Slept);
    let buffer = match connector.step(ConnectorEvent::Counted { available: Some(3) }) {
        Some(ConnectorAction::Read(buffer)) => buffer,
        other => panic!("{:?}", other),
    };
    assert_eq!(
        connector.step(ConnectorEvent::Read { buffer, ok: false }),
        Some(ConnectorAction::Reply(PjLinkRS232MessageResponse {
            response: vec![0, 0, 0],
            elapsed_time: 0
        }))
    );
}

#[test]
fn an_event_out_of_turn_is_passed_over() {
    let (mut connector, _) = PjLinkRS232Connector::start();
    assert_eq!(connector.step(ConnectorEvent::Slept), None);
    assert_eq!(connector.step(ConnectorEvent::Replied { ok: true }), None);
    assert_eq!(connector.state(), ConnectorState::Idle);
    connector.step(request(b"A", 60));
    assert_eq!(connector.step(request(b"B", 70)), None);
    assert_eq!(connector.step(ConnectorEvent::Disconnected), None);
    assert_eq!(connector.step(ConnectorEvent::Read { buffer: vec![1], ok: true }), None);
    assert_eq!(connector.state(), ConnectorState::Writing { wait: 60 });
    assert_eq!(
        connector.step(ConnectorEvent::Written { ok: true }),
        Some(ConnectorAction::SetTimeout(60))
    );
}

#[test]
fn a_closed_request_channel_stops_the_worker_for_good() {
    let (mut connector, _) = PjLinkRS232Connector::start();
    assert_eq!(connector.step(ConnectorEvent::Disconnected), Some(ConnectorAction::Stop));
    assert_eq!(connector.state(), ConnectorState::Stopped);
    assert_eq!(connector.step(request(b"A", 60)), None);
    assert_eq!(connector.step(ConnectorEvent::Disconnected), None);
    assert_eq!(connector.state(), ConnectorState::Stopped);
}

/// A projector that answers every write with one fixed reply, for a worker
/// that is driven by the connector's rules.
struct Projector {
    written: Vec<Vec<u8>>,
    waiting: Vec<u8>,
    reply: Vec<u8>,
}

/// Serves `requests` as a worker would, and gives back the replies it made.
fn serve(projector: &mut Projector, requests: Vec<PjLinkRS232MessageRequest>) -> Vec<Vec<u8>> {
    let mut requests = requests.into_iter();
    let mut replies = Vec::new();
    let (mut connector, mut action) = PjLinkRS232Connector::start();
    loop {
        let event = match action {
            ConnectorAction::Receive => match requests.next() {
                Some(request) => ConnectorEvent::Request(request),
                None => ConnectorEvent::Disconnected,
            },
            ConnectorAction::Write(bytes) => {
                projector.written.push(bytes);
                projector.waiting = projector.reply.clone();
                ConnectorEvent::Written { ok: true }
            }
            ConnectorAction::SetTimeout(_) => ConnectorEvent::TimeoutSet { ok: true },
            ConnectorAction::Sleep(_) => ConnectorEvent::Slept,
            ConnectorAction::Count => {
                ConnectorEvent::Counted { available: Some(projector.waiting.len() as u32) }
            }
            ConnectorAction::Read(mut buffer) => {
                let count = buffer.len().min(projector.waiting.len());
                buffer[..count].copy_from_slice(&projector.waiting[..count]);
                projector.waiting.clear();
                ConnectorEvent::Read { buffer, ok: true }
            }
            ConnectorAction::Reply(reply) => {
                replies.push(reply.response);
                ConnectorEvent::Replied { ok: true }
            }
            ConnectorAction::Stop => return replies,
        };
        action = match connector.step(event) {
            Some(action) => action,
            None => panic!("the worker passed over an event in turn"),
        };
    }
}

#[test]
fn a_served_worker_replies_once_to_each_request_in_order() {
    let mut projector =
        Projector { written: vec![], waiting: vec![], reply: b"PON_OK\r".to_vec() };
    let ask = |message: &[u8]| PjLinkRS232MessageRequest {
        message: message.to_vec(),
        timeout: 0,
        stop_processing: false,
    };
    let replies = serve(&mut projector, vec![ask(b"PON\r"), ask(b"POF\r"), ask(b"PON\r")]);
    assert_eq!(replies, vec![b"PON_OK\r".to_vec(), b"PON_OK\r".to_vec(), b"PON_OK\r".to_vec()]);
    assert_eq!(projector.written, vec![b"PON\r".to_vec(), b"POF\r".to_vec(), b"PON\r".to_vec()]);
}

#[test]
fn a_served_worker_without_requests_makes_no_reply() {
    let mut projector = Projector { written: vec![], waiting: vec![], reply: vec![] };
    assert_eq!(serve(&mut projector, vec![]), Vec::<Vec<u8>>::new());
    assert_eq!(projector.written, Vec::<Vec<u8>>::new());
}
