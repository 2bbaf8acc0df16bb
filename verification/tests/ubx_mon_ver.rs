use ubxlib::cid::UbxCID;
use ubxlib::frame::{UbxFrameDeSerialize, UbxFrameInfo, UbxFrameSerialize};
use ubxlib::ubx_mon_ver::{starts_with, trim_start_matches, UbxMonVer, UbxMonVerPoll};

const DATA: [u8; 250] = [
    69, 88, 84, 32, 67, 79, 82, 69, 32, 51, 46, 48, 49, 32, 40, 49, 101, 99, 57, 51, 102, 41, 0,
    0, 0, 0, 0, 0, 0, 0, 48, 48, 48, 56, 48, 48, 48, 48, 0, 0, 82, 79, 77, 32, 66, 65, 83, 69, 32,
    51, 46, 48, 49, 32, 40, 49, 48, 55, 56, 56, 56, 41, 0, 0, 0, 0, 0, 0, 0, 0, 70, 87, 86, 69, 82,
    61, 65, 68, 82, 32, 52, 46, 50, 49, 0, 0, 0, 0, 0, 0, 0, 0, 0, 0, 0, 0, 0, 0, 0, 0, 80, 82, 79,
    84, 86, 69, 82, 61, 49, 57, 46, 50, 48, 0, 0, 0, 0, 0, 0, 0, 0, 0, 0, 0, 0, 0, 0, 0, 0, 0, 77,
    79, 68, 61, 78, 69, 79, 45, 77, 56, 76, 45, 48, 0, 0, 0, 0, 0, 0, 0, 0, 0, 0, 0, 0, 0, 0, 0, 0,
    0, 70, 73, 83, 61, 48, 120, 69, 70, 52, 48, 49, 53, 32, 40, 49, 48, 48, 49, 49, 49, 41, 0, 0,
    0, 0, 0, 0, 0, 0, 0, 71, 80, 83, 59, 71, 76, 79, 59, 71, 65, 76, 59, 66, 68, 83, 0, 0, 0, 0, 0,
    0, 0, 0, 0, 0, 0, 0, 0, 0, 0, 83, 66, 65, 83, 59, 73, 77, 69, 83, 59, 81, 90, 83, 83, 0, 0, 0,
    0, 0, 0, 0, 0, 0, 0, 0, 0, 0, 0, 0, 0,
];

#[test]
fn ubx_mon_ver_poll() {
    let dut = UbxMonVerPoll::create();
    assert_eq!(dut.name, "UBX-MON-VER-POLL");
    let msg = dut.to_bin();
    assert_eq!(msg, [0xb5, 0x62, 0x0A, 0x04, 0, 0, 14, 52]);
}

#[test]
fn ubx_mon_ver_new() {
    let dut = UbxMonVer::new();
    assert_eq!(dut.name(), "UBX-MON-VER");
    assert_eq!(dut.sw_version(), "");
    assert_eq!(dut.hw_version(), "");
}

#[test]
fn ubx_mon_ver_deserialize() {
    let mut dut = UbxMonVer::new();
    dut.from_bin(&DATA);
    assert_eq!(dut.sw_version(), "EXT CORE 3.01 (1ec93f)");
    assert_eq!(dut.hw_version(), "00080000");
    assert_eq!(dut.get_info("PROTVER="), "19.20");
    assert_eq!(dut.get_ext(5), "GPS;GLO;GAL;BDS");
    assert_eq!(dut.get_ext(7), "");
}

#[test]
fn ubx_mon_ver_extensions_and_keys() {
    let mut dut = UbxMonVer::new();
    assert_eq!(dut.cid(), UbxCID::new(0x0A, 0x04));
    assert!(dut.can_load(&DATA));
    assert!(!dut.can_load(&DATA[..39]));
    assert!(dut.can_load(&DATA[..40]));
    assert!(!dut.can_load(&DATA[..41]));
    assert!(dut.can_load(&DATA[..70]));
    dut.load(&DATA);

    assert_eq!(dut.get_ext(0), "ROM BASE 3.01 (107888)");
    assert_eq!(dut.get_ext(1), "FWVER=ADR 4.21");
    assert_eq!(dut.get_ext(6), "SBAS;IMES;QZSS");
    assert_eq!(dut.get_info("FWVER="), "ADR 4.21");
    assert_eq!(dut.get_info("MOD="), "NEO-M8L-0");
    assert_eq!(dut.get_info("NONE="), "");
    // the first extension that starts with the key is taken
    assert_eq!(dut.get_info("F"), "WVER=ADR 4.21");
    assert_eq!(dut.get_info(""), "ROM BASE 3.01 (107888)");
}

#[test]
fn ubx_mon_ver_text_of_a_field() {
    assert_eq!(UbxMonVer::extract_string(b"abc\0\0\0"), "abc");
    assert_eq!(UbxMonVer::extract_string(b"\0a\0b\0"), "ab");
    assert_eq!(UbxMonVer::extract_string(b""), "");
    assert_eq!(UbxMonVer::extract_string(&[0x41, 0xFF, 0x42, 0x00]), "A\u{FFFD}B");
    assert_eq!(UbxMonVer::extract_string("Zürich\0".as_bytes()), "Zürich");
}

#[test]
fn ubx_mon_ver_prefixes() {
    assert!(starts_with("PROTVER=19.20", "PROTVER="));
    assert!(starts_with("abc", ""));
    assert!(starts_with("abc", "abc"));
    assert!(!starts_with("abc", "abcd"));
    assert!(!starts_with("abc", "b"));
    assert!(starts_with("äöü", "äö"));
    assert_eq!(trim_start_matches("PROTVER=19.20", "PROTVER="), "19.20");
    assert_eq!(trim_start_matches("ababab-ab", "ab"), "-ab");
    assert_eq!(trim_start_matches("aaaa", "a"), "");
    assert_eq!(trim_start_matches("abc", ""), "abc");
    assert_eq!(trim_start_matches("abc", "x"), "abc");
    // as the standard library trims
    assert_eq!(trim_start_matches("ababab-ab", "ab"), "ababab-ab".trim_start_matches("ab"));
    assert_eq!(trim_start_matches("abc", ""), "abc".trim_start_matches(""));
}
