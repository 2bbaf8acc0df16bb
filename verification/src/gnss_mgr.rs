//! What the receiver manager decides and writes without the modem at hand:
//! the name of the device, the text of the run file, and what follows from
//! the state of the backup.

use vstd::prelude::*;
use vstd::string::*;

use crate::error::Error;
use crate::ubx_mon_ver::starts_with;

verus! {

/// The firmware version that counts as current.
pub const CURRENT_FW_VER: &'static str = "ADR 4.31";

/// What the manager knows of a modem when it writes the run file.
#[derive(Debug)]
pub struct RunInfo {
    pub vendor: String,
    pub model: String,
    pub fw_ver: String,
    pub protocol: String,
    pub systems: String,
    pub augmentation: String,
    pub sw_ver: String,
    pub hw_ver: String,
}

/// The path of the device for a name that is given in full or in short, such
/// as `gnss0` for `/dev/gnss0`.
pub open spec fn device_path(name: Seq<char>) -> Seq<char> {
    if "/dev/"@.is_prefix_of(name) {
        name
    } else {
        "/dev/"@ + name
    }
}

/// The path of the device for a name that is given in full or in short.
pub fn device_name(name: &str) -> (path: String)
    ensures
        path@ == device_path(name@),
{
    if starts_with(name, "/dev/") {
        String::from_str(name)
    } else {
        let mut path = String::from_str("/dev/");
        path.append(name);
        path
    }
}

/// What the run file says behind a firmware version that is not the current
/// one.
pub open spec fn deprecated_note(fw_ver: Seq<char>) -> Seq<char> {
    if fw_ver != CURRENT_FW_VER@ {
        " (Deprecated)"@
    } else {
        ""@
    }
}

/// The text of the run file: one line for each thing known of the modem.
pub open spec fn runfile_text(info: RunInfo) -> Seq<char> {
    "Vendor:                             "@ + info.vendor@ + "\n"@
        + "Model:                              "@ + info.model@ + "\n"@
        + "Firmware:                           "@ + info.fw_ver@ + deprecated_note(info.fw_ver@)
        + "\n"@ + "ubx-Protocol:                       "@ + info.protocol@ + "\n"@
        + "Supported Satellite Systems:        "@ + info.systems@ + "\n"@
        + "Supported Augmentation Services:    "@ + info.augmentation@ + "\n"@
        + "SW Version:                         "@ + info.sw_ver@ + "\n"@
        + "HW Version:                         "@ + info.hw_ver@ + "\n"@
}

/// The text of the run file.
pub fn write_runfile(info: &RunInfo) -> (text: String)
    ensures
        text@ == runfile_text(*info),
{
    let current = String::from_str(CURRENT_FW_VER);
    let deprecated = if info.fw_ver != current {
        " (Deprecated)"
    } else {
        ""
    };

    let mut text = String::from_str("Vendor:                             ");
    text.append(info.vendor.as_str());
    text.append("\n");
    text.append("Model:                              ");
    text.append(info.model.as_str());
    text.append("\n");
    text.append("Firmware:                           ");
    text.append(info.fw_ver.as_str());
    text.append(deprecated);
    text.append("\n");
    text.append("ubx-Protocol:                       ");
    text.append(info.protocol.as_str());
    text.append("\n");
    text.append("Supported Satellite Systems:        ");
    text.append(info.systems.as_str());
    text.append("\n");
    text.append("Supported Augmentation Services:    ");
    text.append(info.augmentation.as_str());
    text.append("\n");
    text.append("SW Version:                         ");
    text.append(info.sw_ver.as_str());
    text.append("\n");
    text.append("HW Version:                         ");
    text.append(info.hw_ver.as_str());
    text.append("\n");
    proof {
        assert(text@ =~= runfile_text(*info));
    }
    text
}

/// Whether the backup is to be cleared once its state is known: it is, unless
/// there is none.
pub fn clear_backup(checked: Result<(), Error>) -> (clear: bool)
    ensures
        clear == (checked != Err::<(), Error>(Error::ModemNobackup)),
{
    match checked {
        Ok(_) => true,
        Err(Error::ModemNobackup) => false,
        Err(_) => true,
    }
}

/// The baud rate at which the manager talks to the modem.
pub const WORKING_BITRATE: usize = 115200;

/// Whether the modem has to be told to change its baud rate after the rate
/// at which it talks was detected.
pub fn bitrate_change_needed(detected: usize) -> (needed: bool)
    ensures
        needed == (detected != WORKING_BITRATE),
{
    detected != WORKING_BITRATE
}

} // verus!
