//! The errors of the transport and of the receiver manager.

use vstd::prelude::*;
use vstd::string::*;

verus! {

#[derive(Debug, Clone, Copy, PartialEq, Eq, Structural)]
pub enum Error {
    SerialPortNotFound,
    SerialPortConfigFailed,
    SerialPortSendFailed,
    BaudRateDetectionFailed,
    ModemNotResponding,
    ModemNAK,
    ModemUnexpectedAckNak,
    ModemNobackup,
    ModemBackupRestoreFailed,
    InvalidArgument,
}

/// The text that describes an error.
pub open spec fn error_text(error: Error) -> Seq<char> {
    match error {
        Error::SerialPortNotFound => "serial port not found"@,
        Error::SerialPortConfigFailed => "failed to configure serial port"@,
        Error::SerialPortSendFailed => "failed to send to serial port"@,
        Error::BaudRateDetectionFailed => "failed to detect current baudrate"@,
        Error::ModemNotResponding => "modem did not respond"@,
        Error::ModemNAK => "modem NAK received"@,
        Error::ModemUnexpectedAckNak => "unexpected ACK/NAK received"@,
        Error::ModemNobackup => "no backup present"@,
        Error::ModemBackupRestoreFailed => "restoring backup failed"@,
        Error::InvalidArgument => "invalid argument"@,
    }
}

impl Error {
    /// The text that describes the error.
    pub fn description(&self) -> (text: &'static str)
        ensures
            text@ == error_text(*self),
    {
        match *self {
            Error::SerialPortNotFound => "serial port not found",
            Error::SerialPortConfigFailed => "failed to configure serial port",
            Error::SerialPortSendFailed => "failed to send to serial port",
            Error::BaudRateDetectionFailed => "failed to detect current baudrate",
            Error::ModemNotResponding => "modem did not respond",
            Error::ModemNAK => "modem NAK received",
            Error::ModemUnexpectedAckNak => "unexpected ACK/NAK received",
            Error::ModemNobackup => "no backup present",
            Error::ModemBackupRestoreFailed => "restoring backup failed",
            Error::InvalidArgument => "invalid argument",
        }
    }

    /// The text that describes the error, as an owned string.
    pub fn to_string(&self) -> (text: String)
        ensures
            text@ == error_text(*self),
    {
        String::from_str(self.description())
    }
}

} // verus!
