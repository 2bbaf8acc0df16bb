//! UBX-MGA-INI-TIME_UTC: the current time, given to the receiver as assistance.

use vstd::prelude::*;

use crate::cid::UbxCID;
use crate::frame::{UbxFrameWithData, WireEncode};
use crate::wire::{le16, le32, put_bytes, put_i8, put_u16, put_u32, put_u8, twos8};

verus! {

pub const CLS: u8 = 0x13;

pub const ID: u8 = 0x40;

/// The message type that says that the time is UTC.
pub const TYPE_UTC: u8 = 0x10;

/// The number of leap seconds that says that it is not known.
pub const LEAP_SECONDS_UNKNOWN: i8 = -128;

/// The accuracy of the time in seconds that is claimed.
pub const ACCURACY_SECONDS: u16 = 10;

/// Payload of the message: a time in UTC and its accuracy, twenty-four bytes.
#[derive(Debug)]
pub struct MgaIniTimeUtc {
    pub msg_type: u8,
    pub msg_version: u8,
    pub msg_ref: u8,
    pub leap_secs: i8,
    pub year: u16,
    pub month: u8,
    pub day: u8,
    pub hour: u8,
    pub minute: u8,
    pub second: u8,
    pub res1: u8,
    pub ns: u32,
    pub tacc_s: u16,
    pub res2: [u8; 2],
    pub tacc_ns: u32,
}

impl Default for MgaIniTimeUtc {
    fn default() -> (data: Self)
        ensures
            data == (MgaIniTimeUtc {
                msg_type: 0,
                msg_version: 0,
                msg_ref: 0,
                leap_secs: 0,
                year: 0,
                month: 0,
                day: 0,
                hour: 0,
                minute: 0,
                second: 0,
                res1: 0,
                ns: 0,
                tacc_s: 0,
                res2: [0u8, 0u8],
                tacc_ns: 0,
            }),
    {
        MgaIniTimeUtc {
            msg_type: 0,
            msg_version: 0,
            msg_ref: 0,
            leap_secs: 0,
            year: 0,
            month: 0,
            day: 0,
            hour: 0,
            minute: 0,
            second: 0,
            res1: 0,
            ns: 0,
            tacc_s: 0,
            res2: [0u8, 0u8],
            tacc_ns: 0,
        }
    }
}

impl WireEncode for MgaIniTimeUtc {
    open spec fn wire(&self) -> Seq<u8> {
        seq![self.msg_type]
            + seq![self.msg_version]
            + seq![self.msg_ref]
            + seq![twos8(self.leap_secs)]
            + le16(self.year)
            + seq![self.month]
            + seq![self.day]
            + seq![self.hour]
            + seq![self.minute]
            + seq![self.second]
            + seq![self.res1]
            + le32(self.ns)
            + le16(self.tacc_s)
            + self.res2@
            + le32(self.tacc_ns)
    }

    fn encode(&self) -> (bytes: Vec<u8>) {
        let mut bytes = Vec::new();
        put_u8(&mut bytes, self.msg_type);
        put_u8(&mut bytes, self.msg_version);
        put_u8(&mut bytes, self.msg_ref);
        put_i8(&mut bytes, self.leap_secs);
        put_u16(&mut bytes, self.year);
        put_u8(&mut bytes, self.month);
        put_u8(&mut bytes, self.day);
        put_u8(&mut bytes, self.hour);
        put_u8(&mut bytes, self.minute);
        put_u8(&mut bytes, self.second);
        put_u8(&mut bytes, self.res1);
        put_u32(&mut bytes, self.ns);
        put_u16(&mut bytes, self.tacc_s);
        put_bytes(&mut bytes, self.res2.as_slice());
        put_u32(&mut bytes, self.tacc_ns);
        proof {
            assert(bytes@ =~= self.wire());
        }
        bytes
    }
}

impl MgaIniTimeUtc {
    /// The payload with every field zero.
    pub fn new() -> (data: Self)
        ensures
            data == (MgaIniTimeUtc {
                msg_type: 0,
                msg_version: 0,
                msg_ref: 0,
                leap_secs: 0,
                year: 0,
                month: 0,
                day: 0,
                hour: 0,
                minute: 0,
                second: 0,
                res1: 0,
                ns: 0,
                tacc_s: 0,
                res2: [0u8, 0u8],
                tacc_ns: 0,
            }),
    {
        MgaIniTimeUtc {
            msg_type: 0,
            msg_version: 0,
            msg_ref: 0,
            leap_secs: 0,
            year: 0,
            month: 0,
            day: 0,
            hour: 0,
            minute: 0,
            second: 0,
            res1: 0,
            ns: 0,
            tacc_s: 0,
            res2: [0u8, 0u8],
            tacc_ns: 0,
        }
    }
}

pub struct UbxMgaIniTimeUtc {}

impl UbxMgaIniTimeUtc {
    /// The message with every field zero.
    pub fn new() -> (frame: UbxFrameWithData<MgaIniTimeUtc>)
        ensures
            frame.name@ == "UBX-MGA-INI-TIME_UTC"@,
            frame.cid == UbxCID::new(CLS, ID),
            frame.data == (MgaIniTimeUtc {
                msg_type: 0,
                msg_version: 0,
                msg_ref: 0,
                leap_secs: 0,
                year: 0,
                month: 0,
                day: 0,
                hour: 0,
                minute: 0,
                second: 0,
                res1: 0,
                ns: 0,
                tacc_s: 0,
                res2: [0u8, 0u8],
                tacc_ns: 0,
            }),
    {
        UbxFrameWithData::init("UBX-MGA-INI-TIME_UTC", UbxCID::new(CLS, ID), MgaIniTimeUtc::new())
    }
}

/// A calendar date and a time of day, as the numbers that a clock gives.
#[derive(Debug, Clone, Copy)]
pub struct UtcTime {
    pub year: i32,
    pub month: u32,
    pub day: u32,
    pub hour: u32,
    pub minute: u32,
    pub second: u32,
}

/// The year as the sixteen bits that the message has for it.
pub open spec fn year_field(year: i32) -> u16 {
    (year % 65536) as u16
}

/// The payload that carries `time`: the time is UTC, the leap seconds are
/// not known, the fraction of the second is zero and the accuracy is ten
/// seconds. The reserved bytes stay as they are in `data`. Of a number that
/// does not fit its field the low bits are kept.
pub open spec fn with_time(data: MgaIniTimeUtc, time: UtcTime) -> MgaIniTimeUtc {
    MgaIniTimeUtc {
        msg_type: TYPE_UTC,
        msg_version: 0,
        msg_ref: 0,
        leap_secs: LEAP_SECONDS_UNKNOWN,
        year: year_field(time.year),
        month: (time.month % 256) as u8,
        day: (time.day % 256) as u8,
        hour: (time.hour % 256) as u8,
        minute: (time.minute % 256) as u8,
        second: (time.second % 256) as u8,
        ns: 0,
        tacc_s: ACCURACY_SECONDS,
        tacc_ns: 0,
        ..data
    }
}

impl UbxFrameWithData<MgaIniTimeUtc> {
    /// Puts the date and the time of day into the message.
    pub fn set_date_time(&mut self, time: &UtcTime)
        ensures
            final(self).name == old(self).name,
            final(self).cid == old(self).cid,
            final(self).data == with_time(old(self).data, *time),
    {
        self.data.msg_type = TYPE_UTC;  // UTC time format
        self.data.msg_version = 0x00;
        self.data.msg_ref = 0x00;  // receipt of message will be inaccurate

        self.data.leap_secs = LEAP_SECONDS_UNKNOWN;

        self.data.year = low_16(time.year);
        self.data.month = (time.month % 256) as u8;
        self.data.day = (time.day % 256) as u8;
        self.data.hour = (time.hour % 256) as u8;
        self.data.minute = (time.minute % 256) as u8;
        self.data.second = (time.second % 256) as u8;
        self.data.ns = 0;

        self.data.tacc_s = ACCURACY_SECONDS;
        self.data.tacc_ns = 0;
    }
}

/// The low sixteen bits of a year.
fn low_16(year: i32) -> (bits: u16)
    ensures
        bits == year_field(year),
{
    let shifted: i64 = year as i64 + 2147483648;
    // 2147483648 is a multiple of 65536
    (shifted % 65536) as u16
}

} // verus!
