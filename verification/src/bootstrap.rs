//! What the bridge settles before it serves: how much it logs, and the
//! options it runs with once the command line has had its say over the
//! definition.

use crate::connector::PjLinkRS232ConnectorOptions;
use crate::rs232_bridge::PjLinkRS232ProjectorOptions;
use vstd::prelude::*;
use vstd::utf8::encode_utf8;

verus! {

/// How much is logged, from nothing to everything.
#[derive(Debug, Clone, Copy, PartialEq, Eq, Structural)]
pub enum LogLevel {
    Off,
    Error,
    Warn,
    Info,
    Debug,
    Trace,
}

/// The level that so many `-v` on the command line ask for; `None` where the
/// count asks for nothing in particular.
pub open spec fn spec_selected_level(selected_level: i32) -> Option<LogLevel> {
    if selected_level == 1 {
        Some(LogLevel::Error)
    } else if selected_level == 2 {
        Some(LogLevel::Warn)
    } else if selected_level == 3 {
        Some(LogLevel::Info)
    } else if selected_level == 4 {
        Some(LogLevel::Debug)
    } else if selected_level == 5 {
        Some(LogLevel::Trace)
    } else {
        None
    }
}

/// The level to log at: one `-v` is errors only, five are everything, and
/// any other count leaves the default in place.
pub fn default_log_logging(selected_level: i32, default_level: LogLevel) -> (level: LogLevel)
    ensures
        level == match spec_selected_level(selected_level) {
            Some(selected) => selected,
            None => default_level,
        },
{
    match selected_level {
        1 => LogLevel::Error,
        2 => LogLevel::Warn,
        3 => LogLevel::Info,
        4 => LogLevel::Debug,
        5 => LogLevel::Trace,
        _ => default_level,
    }
}

/// What the command line says of the projector and its serial line.
#[derive(Debug, Clone, PartialEq, Eq)]
pub struct CommandLineSettings {
    pub projector_name: String,
    pub serial_number: Option<String>,
    pub password: Option<String>,
    pub serial_port: String,
    pub baud_rate: Option<u32>,
}

/// Whether `byte` is the ASCII code of a digit or of a letter from `a` to `f`.
pub open spec fn is_lower_hex_digit(byte: u8) -> bool {
    (48 <= byte <= 57) || (97 <= byte <= 102)
}

/// Whether `serial` can be a serial number that the bridge made up: 32
/// hexadecimal digits in lower case.
pub open spec fn is_generated_serial_number(serial: Seq<u8>) -> bool {
    &&& serial.len() == 32
    &&& forall|i: int| 0 <= i < serial.len() ==> is_lower_hex_digit(#[trigger] serial[i])
}

/// `uuid::Uuid::new_v4`, rendered by `Uuid::simple` and `to_string`: a random
/// UUID written without hyphens. The crate writes the sixteen bytes as two
/// lower-case hexadecimal digits each; which digits is a matter of chance, so
/// only their number and kind is claimed. The crate gives up where the
/// system has no random bytes to give.
#[verifier::external_body]
fn random_serial_number() -> (serial: Vec<u8>)
    ensures
        is_generated_serial_number(serial@),
{
    uuid::Uuid::new_v4().simple().to_string().into_bytes()
}

/// The serial number to answer with: the one given, or one made up.
pub fn resolve_serial_number(given: Option<String>) -> (serial: Vec<u8>)
    ensures
        match given {
            Some(text) => serial@ == encode_utf8(text@),
            None => is_generated_serial_number(serial@),
        },
{
    match given {
        Some(text) => text.as_str().as_bytes_vec(),
        None => random_serial_number(),
    }
}

impl PjLinkRS232ProjectorOptions {
    /// Lays the command line over the options that the definition gave: the
    /// password, the projector's name, the serial port and the serial number
    /// are the command line's to say, and so is the baud rate where it names
    /// one. A serial number that it does not give is made up. All else stays
    /// as the definition has it.
    pub fn apply_command_line(&mut self, settings: CommandLineSettings)
        ensures
            final(self).password == settings.password,
            final(self).projector_name@ == encode_utf8(settings.projector_name@),
            final(self).serial_port == settings.serial_port,
            final(self).baud_rate == match settings.baud_rate {
                Some(baud_rate) => baud_rate,
                None => old(self).baud_rate,
            },
            match settings.serial_number {
                Some(text) => final(self).serial_number@ == encode_utf8(text@),
                None => is_generated_serial_number(final(self).serial_number@),
            },
            final(self).class_type == old(self).class_type,
            final(self).manufacturer_name == old(self).manufacturer_name,
            final(self).product_name == old(self).product_name,
            final(self).software_version == old(self).software_version,
            final(self).screen_resolution == old(self).screen_resolution,
            final(self).recommended_screen_resolution == old(self).recommended_screen_resolution,
            final(self).commands == old(self).commands,
            final(self).behavior == old(self).behavior,
            final(self).data_bits == old(self).data_bits,
            final(self).parity == old(self).parity,
            final(self).stop_bits == old(self).stop_bits,
            final(self).hardware_flow_control == old(self).hardware_flow_control,
            final(self).software_flow_control == old(self).software_flow_control,
    {
        self.password = settings.password;
        self.projector_name = settings.projector_name.as_str().as_bytes_vec();
        self.serial_port = settings.serial_port;
        if let Some(baud_rate) = settings.baud_rate {
            self.baud_rate = baud_rate;
        }
        self.serial_number = resolve_serial_number(settings.serial_number);
    }

    /// The serial line that these options ask the worker to open.
    pub fn connector_options(&self) -> (connector: PjLinkRS232ConnectorOptions)
        ensures
            connector.serial_port == self.serial_port,
            connector.baud_rate == self.baud_rate,
            connector.data_bits == self.data_bits,
            connector.parity == self.parity,
            connector.stop_bits == self.stop_bits,
            connector.hardware_flow_control == self.hardware_flow_control,
            connector.software_flow_control == self.software_flow_control,
    {
        PjLinkRS232ConnectorOptions {
            serial_port: self.serial_port.clone(),
            baud_rate: self.baud_rate,
            data_bits: self.data_bits,
            parity: self.parity,
            stop_bits: self.stop_bits,
            hardware_flow_control: self.hardware_flow_control,
            software_flow_control: self.software_flow_control,
        }
    }
}

} // verus!
