use pjlink_rs232_bridge::bootstrap::{
    default_log_logging, resolve_serial_number, CommandLineSettings, LogLevel,
};
use pjlink_rs232_bridge::connector::PjLinkRS232ConnectorOptions;
use pjlink_rs232_bridge::dictionary::Dictionary;
use pjlink_rs232_bridge::rs232_bridge::PjLinkRS232ProjectorOptions;
use pjlink_rs232_bridge::rs232_bridge_def::{
    BridgeDefinition, BridgeDefinitionConnection, BridgeDefinitionGeneral,
};

#[test]
fn verbosity_picks_the_level() {
    assert_eq!(default_log_logging(1, LogLevel::Warn), LogLevel::Error);
    assert_eq!(default_log_logging(2, LogLevel::Info), LogLevel::Warn);
    assert_eq!(default_log_logging(3, LogLevel::Warn), LogLevel::Info);
    assert_eq!(default_log_logging(4, LogLevel::Warn), LogLevel::Debug);
    assert_eq!(default_log_logging(5, LogLevel::Warn), LogLevel::Trace);
}

#[test]
fn any_other_verbosity_keeps_the_default() {
    assert_eq!(default_log_logging(0, LogLevel::Warn), LogLevel::Warn);
    assert_eq!(default_log_logging(0, LogLevel::Info), LogLevel::Info);
    assert_eq!(default_log_logging(6, LogLevel::Off), LogLevel::Off);
    assert_eq!(default_log_logging(-1, LogLevel::Trace), LogLevel::Trace);
    assert_eq!(default_log_logging(i32::MAX, LogLevel::Debug), LogLevel::Debug);
}

#[test]
fn a_given_serial_number_is_kept() {
    assert_eq!(resolve_serial_number(Some("SN-42".to_string())), b"SN-42".to_vec());
    assert_eq!(resolve_serial_number(Some("".to_string())), Vec::<u8>::new());
}

#[test]
fn a_made_up_serial_number_is_32_hexadecimal_digits() {
    let first = resolve_serial_number(None);
    let second = resolve_serial_number(None);
    for serial in [&first, &second] {
        assert_eq!(serial.len(), 32);
        assert!(serial.iter().all(|byte| matches!(byte, b'0'..=b'9' | b'a'..=b'f')));
    }
    assert_ne!(first, second);
}

fn options() -> PjLinkRS232ProjectorOptions {
    PjLinkRS232ProjectorOptions::from_def(BridgeDefinition {
        general: BridgeDefinitionGeneral {
            manufacturer_name: "Acme".to_string(),
            product_name: "Beamer".to_string(),
            software_version: "1".to_string(),
            class_type: 1,
        },
        connection: BridgeDefinitionConnection {
            baud_rate: 9600,
            data_bits: Some(7),
            parity: Some('O'),
            stop_bits: Some(2),
            hardware_flow_control: None,
            software_flow_control: Some(true),
        },
        resolution: None,
        behavior: None,
        commands: Dictionary::new(),
    })
}

#[test]
fn the_command_line_is_laid_over_the_definition() {
    let mut options = options();
    options.apply_command_line(CommandLineSettings {
        projector_name: "Hall A".to_string(),
        serial_number: Some("SN-42".to_string()),
        password: Some("secret".to_string()),
        serial_port: "/dev/ttyS1".to_string(),
        baud_rate: Some(38400),
    });
    assert_eq!(options.projector_name, b"Hall A".to_vec());
    assert_eq!(options.serial_number, b"SN-42".to_vec());
    assert_eq!(options.password, Some("secret".to_string()));
    assert_eq!(options.serial_port, "/dev/ttyS1");
    assert_eq!(options.baud_rate, 38400);
    assert_eq!(options.class_type, b'1');
    assert_eq!(options.manufacturer_name, b"Acme".to_vec());
    assert_eq!(options.data_bits, 7);
    assert_eq!(options.parity, 'O');
    assert_eq!(options.stop_bits, 2);
    assert!(options.software_flow_control);
}

#[test]
fn a_command_line_without_baud_rate_and_serial_number_keeps_one_and_makes_up_the_other() {
    let mut options = options();
    options.apply_command_line(CommandLineSettings {
        projector_name: "Hall B".to_string(),
        serial_number: None,
        password: None,
        serial_port: "COM3".to_string(),
        baud_rate: None,
    });
    assert_eq!(options.baud_rate, 9600);
    assert_eq!(options.password, None);
    assert_eq!(options.serial_number.len(), 32);
    assert!(options.serial_number.iter().all(|byte| byte.is_ascii_hexdigit()));
}

#[test]
fn the_connector_is_given_the_serial_line_of_the_options() {
    let mut options = options();
    options.serial_port = "/dev/ttyUSB3".to_string();
    assert_eq!(
        options.connector_options(),
        PjLinkRS232ConnectorOptions {
            serial_port: "/dev/ttyUSB3".to_string(),
            baud_rate: 9600,
            data_bits: 7,
            parity: 'O',
            stop_bits: 2,
            hardware_flow_control: false,
            software_flow_control: true,
        }
    );
}
