//! Parameters of a serial connection.

use crate::text::decimal;
use crate::text::decimal_string;
use crate::types::{FlowControl, Parity};
use vstd::prelude::*;

verus! {

/// A serial configuration as plain values.
pub struct SerialConfigView {
    pub port: Seq<char>,
    pub baud_rate: u32,
    pub data_bits: u8,
    pub parity: Parity,
    pub stop_bits: u8,
    pub flow_control: FlowControl,
}

/// Why a configuration cannot be used to open a port.
pub enum ConfigFault {
    /// No port is named.
    EmptyPort,
    /// The baud rate is zero.
    ZeroBaudRate,
    /// The number of data bits is not 5, 6, 7 or 8.
    DataBitsOutOfRange,
    /// The number of stop bits is neither 1 nor 2.
    StopBitsOutOfRange,
}

impl ConfigFault {
    /// The message shown for the fault.
    pub open spec fn message(self) -> Seq<char> {
        match self {
            ConfigFault::EmptyPort => "Port cannot be empty"@,
            ConfigFault::ZeroBaudRate => "Baud rate must be greater than 0"@,
            ConfigFault::DataBitsOutOfRange => "Data bits must be between 5 and 8"@,
            ConfigFault::StopBitsOutOfRange => "Stop bits must be 1 or 2"@,
        }
    }
}

impl SerialConfigView {
    /// The configuration every session starts with: no port, 9600 baud,
    /// 8 data bits, no parity, 1 stop bit, no flow control.
    pub open spec fn initial() -> SerialConfigView {
        SerialConfigView {
            port: Seq::empty(),
            baud_rate: 9600,
            data_bits: 8,
            parity: Parity::Off,
            stop_bits: 1,
            flow_control: FlowControl::Off,
        }
    }

    /// The first fault of the configuration, if it has one. The port is
    /// looked at first, then the baud rate, the data bits and the stop bits.
    pub open spec fn fault(self) -> Option<ConfigFault> {
        if self.port.len() == 0 {
            Some(ConfigFault::EmptyPort)
        } else if self.baud_rate == 0 {
            Some(ConfigFault::ZeroBaudRate)
        } else if self.data_bits < 5 || self.data_bits > 8 {
            Some(ConfigFault::DataBitsOutOfRange)
        } else if self.stop_bits < 1 || self.stop_bits > 2 {
            Some(ConfigFault::StopBitsOutOfRange)
        } else {
            None
        }
    }

    /// The letter that stands for the parity setting.
    pub open spec fn parity_letter(self) -> char {
        match self.parity {
            Parity::Off => 'N',
            Parity::Even => 'E',
            Parity::Odd => 'O',
        }
    }

    /// The one-line summary of the configuration, such as
    /// `/dev/ttyUSB0 @ 115200 bps, 8-N-1`.
    pub open spec fn display(self) -> Seq<char> {
        self.port + " @ "@ + decimal(self.baud_rate as nat) + " bps, "@ + decimal(
            self.data_bits as nat,
        ) + "-"@ + seq![self.parity_letter()] + "-"@ + decimal(self.stop_bits as nat)
    }
}

/// Number of data bits of a character on the line.
#[derive(Debug, Clone, Copy, PartialEq, Eq, Structural)]
pub enum DataBits {
    Five,
    Six,
    Seven,
    Eight,
}

/// Number of stop bits after a character on the line.
#[derive(Debug, Clone, Copy, PartialEq, Eq, Structural)]
pub enum StopBits {
    One,
    Two,
}

/// Parameters of a serial connection.
#[derive(Debug)]
pub struct SerialConfig {
    pub port: String,
    pub baud_rate: u32,
    pub data_bits: u8,
    pub parity: Parity,
    pub stop_bits: u8,
    pub flow_control: FlowControl,
}

impl View for SerialConfig {
    type V = SerialConfigView;

    open spec fn view(&self) -> SerialConfigView {
        SerialConfigView {
            port: self.port@,
            baud_rate: self.baud_rate,
            data_bits: self.data_bits,
            parity: self.parity,
            stop_bits: self.stop_bits,
            flow_control: self.flow_control,
        }
    }
}

impl Default for SerialConfig {
    fn default() -> (r: SerialConfig)
        ensures
            r@ == SerialConfigView::initial(),
    {
        SerialConfig {
            port: String::new(),
            baud_rate: 9600,
            data_bits: 8,
            parity: Parity::Off,
            stop_bits: 1,
            flow_control: FlowControl::Off,
        }
    }
}

impl Clone for SerialConfig {
    fn clone(&self) -> (r: SerialConfig)
        ensures
            r@ == self@,
    {
        SerialConfig {
            port: self.port.clone(),
            baud_rate: self.baud_rate,
            data_bits: self.data_bits,
            parity: self.parity,
            stop_bits: self.stop_bits,
            flow_control: self.flow_control,
        }
    }
}

impl SerialConfig {
    /// The initial configuration.
    pub fn new() -> (r: SerialConfig)
        ensures
            r@ == SerialConfigView::initial(),
    {
        SerialConfig::default()
    }

    /// The initial configuration on the given port.
    pub fn with_port(port: &str) -> (r: SerialConfig)
        ensures
            r@ == (SerialConfigView { port: port@, ..SerialConfigView::initial() }),
    {
        SerialConfig {
            port: String::from_str(port),
            baud_rate: 9600,
            data_bits: 8,
            parity: Parity::Off,
            stop_bits: 1,
            flow_control: FlowControl::Off,
        }
    }

    /// Checks that the configuration can be used to open a port. The error
    /// is the message of the first fault.
    pub fn validate(&self) -> (r: Result<(), String>)
        ensures
            match self@.fault() {
                Some(fault) => r is Err && r.unwrap_err()@ == fault.message(),
                None => r is Ok,
            },
    {
        if self.port.as_str().is_empty() {
            return Err(String::from_str("Port cannot be empty"));
        }
        if self.baud_rate == 0 {
            return Err(String::from_str("Baud rate must be greater than 0"));
        }
        if self.data_bits < 5 || self.data_bits > 8 {
            return Err(String::from_str("Data bits must be between 5 and 8"));
        }
        if self.stop_bits < 1 || self.stop_bits > 2 {
            return Err(String::from_str("Stop bits must be 1 or 2"));
        }
        Ok(())
    }

    /// The data bits with which the port is opened: five, six or seven as
    /// configured, and eight for any other number.
    pub fn data_bits_setting(&self) -> (r: DataBits)
        ensures
            r == match self@.data_bits {
                5u8 => DataBits::Five,
                6u8 => DataBits::Six,
                7u8 => DataBits::Seven,
                _ => DataBits::Eight,
            },
    {
        if self.data_bits == 5 {
            DataBits::Five
        } else if self.data_bits == 6 {
            DataBits::Six
        } else if self.data_bits == 7 {
            DataBits::Seven
        } else {
            DataBits::Eight
        }
    }

    /// The stop bits with which the port is opened: two if two are
    /// configured, and one for any other number.
    pub fn stop_bits_setting(&self) -> (r: StopBits)
        ensures
            r == if self@.stop_bits == 2 {
                StopBits::Two
            } else {
                StopBits::One
            },
    {
        if self.stop_bits == 2 {
            StopBits::Two
        } else {
            StopBits::One
        }
    }

    /// The one-line summary of the configuration.
    pub fn format_display(&self) -> (r: String)
        ensures
            r@ == self@.display(),
    {
        let parity_char = match self.parity {
            Parity::Off => 'N',
            Parity::Even => 'E',
            Parity::Odd => 'O',
        };
        let mut r = self.port.clone();
        r.append(" @ ");
        r.append(decimal_string(self.baud_rate as u64).as_str());
        r.append(" bps, ");
        r.append(decimal_string(self.data_bits as u64).as_str());
        r.append("-");
        r.push(parity_char);
        r.append("-");
        r.append(decimal_string(self.stop_bits as u64).as_str());
        assert(r@ =~= self@.display());
        r
    }
}

} // verus!
