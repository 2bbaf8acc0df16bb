use ubxlib::error::Error;

#[test]
fn error_texts() {
    let all = [
        (Error::SerialPortNotFound, "serial port not found"),
        (Error::SerialPortConfigFailed, "failed to configure serial port"),
        (Error::SerialPortSendFailed, "failed to send to serial port"),
        (Error::BaudRateDetectionFailed, "failed to detect current baudrate"),
        (Error::ModemNotResponding, "modem did not respond"),
        (Error::ModemNAK, "modem NAK received"),
        (Error::ModemUnexpectedAckNak, "unexpected ACK/NAK received"),
        (Error::ModemNobackup, "no backup present"),
        (Error::ModemBackupRestoreFailed, "restoring backup failed"),
        (Error::InvalidArgument, "invalid argument"),
    ];
    for (error, text) in all.iter() {
        assert_eq!(error.description(), *text);
        assert_eq!(error.to_string(), *text);
    }
}
