use ubxlib::config_file::Angles;
use ubxlib::error::Error;
use ubxlib::frame::UbxFrameDeSerialize;
use ubxlib::neo_m8::{
    bitrate, check_imu_angles, contains, detect_baudrate_active, dynamic_model, nmea_version,
    set_dynamic_mode, set_imu_angles, set_modem_baudrate, set_nmea_protocol_version, set_systems,
    set_update_rate, sos_check, update_period, BaudDetection, Probe,
};
use ubxlib::ubx_cfg_esfalg::UbxCfgEsfAlg;
use ubxlib::ubx_cfg_gnss::UbxCfgGnss;
use ubxlib::ubx_cfg_nav5::UbxCfgNav5;
use ubxlib::ubx_cfg_nmea::UbxCfgNmea;
use ubxlib::ubx_cfg_prt::UbxCfgPrtUart;
use ubxlib::ubx_cfg_rate::UbxCfgRate;
use ubxlib::ubx_upd_sos::Response;

#[test]
fn bitrates_in_their_order() {
    assert_eq!(bitrate(0), 115200);
    assert_eq!(bitrate(1), 38400);
    assert_eq!(bitrate(2), 19200);
    assert_eq!(bitrate(3), 9600);
}

#[test]
fn first_rate_at_which_receiver_is_heard_is_detected() {
    for working in 0..4usize {
        let mut detection = BaudDetection::new();
        let mut probe = detection.probe();
        let mut tried = Vec::new();
        let found = loop {
            probe = match probe {
                Probe::Configure(rate) => {
                    tried.push(rate);
                    assert_eq!(detection.candidate(), rate);
                    detection.configured(Ok(()))
                }
                Probe::Listen => detection.listened(tried.len() == working + 1),
                Probe::Detected(rate) => break Ok(rate),
                Probe::Failed(error) => break Err(error),
            };
        };
        assert_eq!(found, Ok(bitrate(working)));
        assert_eq!(tried, [115200, 38400, 19200, 9600][..working + 1]);
    }
}

#[test]
fn detection_fails_when_candidates_are_exhausted() {
    let mut detection = BaudDetection::new();
    let mut probe = detection.probe();
    let mut scans = 0;
    let found = loop {
        probe = match probe {
            Probe::Configure(_) => detection.configured(Ok(())),
            Probe::Listen => {
                scans += 1;
                detection.listened(false)
            }
            Probe::Detected(rate) => break Ok(rate),
            Probe::Failed(error) => break Err(error),
        };
    };
    assert_eq!(found, Err(Error::BaudRateDetectionFailed));
    assert_eq!(scans, 4);
    // the detection stays ended
    assert_eq!(detection.listened(true), Probe::Failed(Error::BaudRateDetectionFailed));
    assert_eq!(detection.configured(Ok(())), Probe::Failed(Error::BaudRateDetectionFailed));
}

#[test]
fn detection_fails_when_port_cannot_be_configured() {
    let mut detection = BaudDetection::new();
    assert_eq!(detection.probe(), Probe::Configure(115200));
    assert_eq!(detection.configured(Ok(())), Probe::Listen);
    // a report that answers nothing changes nothing
    assert_eq!(detection.configured(Err(Error::SerialPortNotFound)), Probe::Listen);
    assert_eq!(detection.listened(false), Probe::Configure(38400));
    assert_eq!(detection.listened(true), Probe::Configure(38400));
    assert_eq!(
        detection.configured(Err(Error::SerialPortConfigFailed)),
        Probe::Failed(Error::SerialPortConfigFailed)
    );
}

#[test]
fn reported_baudrate_confirms_candidate() {
    let mut response = UbxCfgPrtUart::new();
    response.from_bin(&[1, 0, 0, 0, 192, 8, 0, 0, 128, 37, 0, 0, 7, 0, 3, 0, 0, 0, 0, 0]);
    assert!(detect_baudrate_active(9600, &response));
    assert!(!detect_baudrate_active(115200, &response));
}

#[test]
fn backup_state_as_result() {
    assert_eq!(sos_check(Response::Restored), Ok(()));
    assert_eq!(sos_check(Response::NotRestoredNoBackup), Err(Error::ModemNobackup));
    assert_eq!(sos_check(Response::RestoreFailed), Err(Error::ModemBackupRestoreFailed));
    assert_eq!(sos_check(Response::Unknown), Err(Error::ModemBackupRestoreFailed));
}

#[test]
fn modem_baudrate() {
    let mut set = UbxCfgPrtUart::new();
    set.data.baudrate = 9600;
    set.data.mode = 0x8C0;
    assert_eq!(set_modem_baudrate(&mut set, 38400), Err(Error::InvalidArgument));
    assert_eq!(set.data.baudrate, 9600);
    assert_eq!(set_modem_baudrate(&mut set, 9600), Ok(false));
    assert_eq!(set_modem_baudrate(&mut set, 115200), Ok(true));
    assert_eq!(set.data.baudrate, 115200);
    assert_eq!(set.data.mode, 0x8C0);
    assert_eq!(set_modem_baudrate(&mut set, 115200), Ok(false));
}

#[test]
fn update_rate_as_measurement_period() {
    assert_eq!(update_period(0), Err(Error::InvalidArgument));
    assert_eq!(update_period(11), Err(Error::InvalidArgument));
    assert_eq!(update_period(1), Ok(1000));
    assert_eq!(update_period(2), Ok(500));
    assert_eq!(update_period(3), Ok(333));
    assert_eq!(update_period(10), Ok(100));

    let mut set = UbxCfgRate::new();
    set.data.meas_rate = 1000;
    set.data.nav_rate = 1;
    assert_eq!(set_update_rate(&mut set, 1), Ok(false));
    assert_eq!(set_update_rate(&mut set, 4), Ok(true));
    assert_eq!(set.data.meas_rate, 250);
    assert_eq!(set.data.nav_rate, 1);
    assert_eq!(set_update_rate(&mut set, 0), Err(Error::InvalidArgument));
    assert_eq!(set.data.meas_rate, 250);
}

#[test]
fn nmea_protocol_versions() {
    assert_eq!(nmea_version("4.0"), Ok(0x40));
    assert_eq!(nmea_version("4.1"), Ok(0x41));
    assert_eq!(nmea_version("4.11"), Ok(0x4b));
    assert_eq!(nmea_version("4.2"), Err(Error::InvalidArgument));
    assert_eq!(nmea_version(""), Err(Error::InvalidArgument));

    let mut set = UbxCfgNmea::new();
    set.data.nmea_version = 0x40;
    set.data.flags = 2;
    assert_eq!(set_nmea_protocol_version(&mut set, "4.0"), Ok(false));
    assert_eq!(set_nmea_protocol_version(&mut set, "4.1"), Ok(true));
    assert_eq!(set.data.nmea_version, 0x41);
    assert_eq!(set.data.flags, 2);
    assert_eq!(set_nmea_protocol_version(&mut set, "5"), Err(Error::InvalidArgument));
    assert_eq!(set.data.nmea_version, 0x41);
}

#[test]
fn dynamic_models() {
    assert_eq!(dynamic_model("stationary"), Ok(2));
    assert_eq!(dynamic_model("vehicle"), Ok(4));
    assert_eq!(dynamic_model("Vehicle"), Err(Error::InvalidArgument));

    let mut set = UbxCfgNav5::new();
    assert_eq!(set_dynamic_mode(&mut set, "vehicle"), Ok(true));
    assert_eq!(set.data.dyn_model, 4);
    assert_eq!(set_dynamic_mode(&mut set, "vehicle"), Ok(false));
    assert_eq!(set_dynamic_mode(&mut set, "stationary"), Ok(true));
    assert_eq!(set.data.dyn_model, 2);
    assert_eq!(set_dynamic_mode(&mut set, "airborne"), Err(Error::InvalidArgument));
    assert_eq!(set.data.dyn_model, 2);
}

#[test]
fn imu_angles_in_hundredths_of_a_degree() {
    let mut set = UbxCfgEsfAlg::new();
    set.data.bitfield = 0x0100;
    assert_eq!(set_imu_angles(&mut set, Angles { yaw: 360, pitch: -90, roll: 180 }), Ok(()));
    assert_eq!(set.data.yaw, 36000);
    assert_eq!(set.data.pitch, -9000);
    assert_eq!(set.data.roll, 18000);
    assert_eq!(set.data.bitfield, 0x0100);

    for angles in [
        Angles { yaw: 361, pitch: 0, roll: 0 },
        Angles { yaw: 0, pitch: 91, roll: 0 },
        Angles { yaw: 0, pitch: -91, roll: 0 },
        Angles { yaw: 0, pitch: 0, roll: 181 },
        Angles { yaw: 0, pitch: 0, roll: -181 },
        Angles { yaw: 0, pitch: i16::MIN, roll: 0 },
    ] {
        assert_eq!(check_imu_angles(angles), Err(Error::InvalidArgument));
        assert_eq!(set_imu_angles(&mut set, angles), Err(Error::InvalidArgument));
        assert_eq!(set.data.yaw, 36000);
    }
    assert_eq!(check_imu_angles(Angles { yaw: 0, pitch: 90, roll: -180 }), Ok(()));
}

#[test]
fn systems_of_the_configuration() {
    const DATA: [u8; 44] = [
        0x00, 32, 32, 5, 0, 8, 16, 0, 0x01, 0x00, 0x01, 0x01, 1, 1, 3, 0, 0x01, 0x00, 0x01, 0x01,
        2, 4, 8, 0, 0x00, 0x00, 0x01, 0x01, 6, 8, 14, 0, 0x01, 0x00, 0x01, 0x01, 0, 0, 0, 0, 0x00,
        0x00, 0x00, 0x00,
    ];
    let mut set = UbxCfgGnss::new();
    set.from_bin(&DATA);
    let systems = vec!["galileo".to_string(), "gps".to_string(), "pluto".to_string()];
    assert!(contains(&systems, "gps"));
    assert!(!contains(&systems, "glonass"));
    set_systems(&mut set, &systems);

    // gps: the first block only
    assert_eq!(set.configs[0].flags, 0x01010001);
    assert_eq!(set.configs[4].flags, 0x00000000);
    // sbas and glonass are switched off, galileo is switched on
    assert_eq!(set.configs[1].flags, 0x01010000);
    assert_eq!(set.configs[2].flags, 0x01010001);
    assert_eq!(set.configs[3].flags, 0x01010000);
    assert_eq!(set.header.num_config_blocks, 5);

    set_systems(&mut set, &[]);
    for cfg in set.configs.iter() {
        assert_eq!(cfg.flags & 1, 0);
    }
}
