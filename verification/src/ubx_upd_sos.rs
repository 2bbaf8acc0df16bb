//! UBX-UPD-SOS: backup of the receiver state in flash, and its restoration.

use vstd::prelude::*;

use crate::cid::UbxCID;
use crate::frame::{UbxFramePoll, UbxFrameWithData, WireDecode, WireEncode};
use crate::wire::{get_u8, put_bytes, put_u8};

verus! {

pub const CLS: u8 = 0x09;

pub const ID: u8 = 0x14;

/// What to do with the backup in flash.
#[derive(Debug, Clone, Copy, PartialEq, Eq, Structural)]
pub enum Command {
    Backup,
    Clear,
}

impl Command {
    /// The number that stands for the value on the wire.
    pub open spec fn spec_code(&self) -> u8 {
        match self {
            Command::Backup => 0x00,
            Command::Clear => 0x01,
        }
    }

    /// The number that stands for the value on the wire.
    #[verifier::when_used_as_spec(spec_code)]
    pub fn code(&self) -> (code: u8)
        ensures
            code == self.spec_code(),
    {
        match self {
            Command::Backup => 0x00,
            Command::Clear => 0x01,
        }
    }
}

impl Default for Command {
    fn default() -> (value: Self)
        ensures
            value == Command::Backup,
    {
        Command::Backup
    }
}

/// What became of the backup when the receiver started.
#[derive(Debug, Clone, Copy, PartialEq, Eq, Structural)]
pub enum Response {
    Unknown,
    RestoreFailed,
    Restored,
    NotRestoredNoBackup,
}

impl Response {
    /// The number that stands for the value on the wire.
    pub open spec fn spec_code(&self) -> u8 {
        match self {
            Response::Unknown => 0,
            Response::RestoreFailed => 1,
            Response::Restored => 2,
            Response::NotRestoredNoBackup => 3,
        }
    }

    /// The number that stands for the value on the wire.
    #[verifier::when_used_as_spec(spec_code)]
    pub fn code(&self) -> (code: u8)
        ensures
            code == self.spec_code(),
    {
        match self {
            Response::Unknown => 0,
            Response::RestoreFailed => 1,
            Response::Restored => 2,
            Response::NotRestoredNoBackup => 3,
        }
    }

    /// The value that a number stands for, if it stands for one.
    pub open spec fn spec_from_code(code: u8) -> Option<Self> {
        if code == 0 {
            Some(Response::Unknown)
        } else if code == 1 {
            Some(Response::RestoreFailed)
        } else if code == 2 {
            Some(Response::Restored)
        } else if code == 3 {
            Some(Response::NotRestoredNoBackup)
        } else {
            None
        }
    }

    /// The value that a number stands for, if it stands for one.
    #[verifier::when_used_as_spec(spec_from_code)]
    pub fn from_code(code: u8) -> (value: Option<Self>)
        ensures
            value == Self::spec_from_code(code),
    {
        if code == 0 {
            Some(Response::Unknown)
        } else if code == 1 {
            Some(Response::RestoreFailed)
        } else if code == 2 {
            Some(Response::Restored)
        } else if code == 3 {
            Some(Response::NotRestoredNoBackup)
        } else {
            None
        }
    }
}

impl Default for Response {
    fn default() -> (value: Self)
        ensures
            value == Response::Unknown,
    {
        Response::Unknown
    }
}

pub struct UbxUpdSosPoll {}

impl UbxUpdSosPoll {
    /// The request to report what became of the backup.
    pub fn new() -> (frame: UbxFramePoll)
        ensures
            frame.name@ == "UBX-UPD-SOS-POLL"@,
            frame.cid == UbxCID::new(CLS, ID),
    {
        UbxFramePoll::new("UBX-UPD-SOS-POLL", UbxCID::new(CLS, ID))
    }
}

/// Payload of the answer, eight bytes. The first byte is 3 in an answer of
/// the receiver.
#[derive(Debug)]
pub struct DataUpdSosResponse {
    pub cmd: u8,
    pub res1: [u8; 3],
    pub response: Response,
    pub res2: [u8; 3],
}

/// Length of the payload in bytes.
pub const DATA_UPD_SOS_RESPONSE_LEN: usize = 8;

impl Default for DataUpdSosResponse {
    fn default() -> (data: Self)
        ensures
            data == (DataUpdSosResponse {
                cmd: 0,
                res1: [0u8, 0u8, 0u8],
                response: Response::Unknown,
                res2: [0u8, 0u8, 0u8],
            }),
    {
        DataUpdSosResponse {
            cmd: 0,
            res1: [0u8, 0u8, 0u8],
            response: Response::Unknown,
            res2: [0u8, 0u8, 0u8],
        }
    }
}

impl WireDecode for DataUpdSosResponse {
    /// Bytes whose fifth byte stands for no response hold no value.
    open spec fn parse(data: Seq<u8>) -> Option<Self> {
        if data.len() >= DATA_UPD_SOS_RESPONSE_LEN {
            match Response::from_code(data[4]) {
                Some(response) => Some(
                    DataUpdSosResponse {
                        cmd: data[0],
                        res1: [data[1], data[2], data[3]],
                        response,
                        res2: [data[5], data[6], data[7]],
                    },
                ),
                None => None,
            }
        } else {
            None
        }
    }

    fn decode(data: &[u8]) -> (value: Option<Self>) {
        if data.len() >= DATA_UPD_SOS_RESPONSE_LEN {
            match Response::from_code(get_u8(data, 4)) {
                Some(response) => Some(
                    DataUpdSosResponse {
                        cmd: get_u8(data, 0),
                        res1: [get_u8(data, 1), get_u8(data, 2), get_u8(data, 3)],
                        response,
                        res2: [get_u8(data, 5), get_u8(data, 6), get_u8(data, 7)],
                    },
                ),
                None => None,
            }
        } else {
            None
        }
    }
}

pub struct UbxUpdSos {}

impl UbxUpdSos {
    /// The answer with every field zero, to be filled from a frame.
    pub fn new() -> (frame: UbxFrameWithData<DataUpdSosResponse>)
        ensures
            frame.name@ == "UBX-UPD-SOS"@,
            frame.cid == UbxCID::new(CLS, ID),
            frame.data == (DataUpdSosResponse {
                cmd: 0,
                res1: [0u8, 0u8, 0u8],
                response: Response::Unknown,
                res2: [0u8, 0u8, 0u8],
            }),
    {
        UbxFrameWithData::new("UBX-UPD-SOS", UbxCID::new(CLS, ID))
    }
}

/// Payload of the command, four bytes.
#[derive(Debug)]
pub struct DataUpdSosAction {
    pub cmd: Command,
    pub res1: [u8; 3],
}

impl Default for DataUpdSosAction {
    fn default() -> (data: Self)
        ensures
            data == (DataUpdSosAction {
                cmd: Command::Backup,
                res1: [0u8, 0u8, 0u8],
            }),
    {
        DataUpdSosAction {
            cmd: Command::Backup,
            res1: [0u8, 0u8, 0u8],
        }
    }
}

impl WireEncode for DataUpdSosAction {
    open spec fn wire(&self) -> Seq<u8> {
        seq![self.cmd.code()]
            + self.res1@
    }

    fn encode(&self) -> (bytes: Vec<u8>) {
        let mut bytes = Vec::new();
        put_u8(&mut bytes, self.cmd.code());
        put_bytes(&mut bytes, self.res1.as_slice());
        proof {
            assert(bytes@ =~= self.wire());
        }
        bytes
    }
}

impl DataUpdSosAction {
    pub fn from(cmd: Command) -> (data: Self)
        ensures
            data == (DataUpdSosAction { cmd, res1: [0u8, 0u8, 0u8] }),
    {
        Self { cmd, res1: [0u8, 0u8, 0u8] }
    }
}

pub struct UbxUpdSosAction {}

impl UbxUpdSosAction {
    /// The command that writes the backup to flash.
    pub fn backup() -> (frame: UbxFrameWithData<DataUpdSosAction>)
        ensures
            frame.name@ == "UBX-UPD-SOS-ACTION"@,
            frame.cid == UbxCID::new(CLS, ID),
            frame.data == (DataUpdSosAction { cmd: Command::Backup, res1: [0u8, 0u8, 0u8] }),
    {
        UbxFrameWithData::init(
            "UBX-UPD-SOS-ACTION",
            UbxCID::new(CLS, ID),
            DataUpdSosAction::from(Command::Backup),
        )
    }

    /// The command that clears the backup in flash.
    pub fn clear() -> (frame: UbxFrameWithData<DataUpdSosAction>)
        ensures
            frame.name@ == "UBX-UPD-SOS-ACTION"@,
            frame.cid == UbxCID::new(CLS, ID),
            frame.data == (DataUpdSosAction { cmd: Command::Clear, res1: [0u8, 0u8, 0u8] }),
    {
        UbxFrameWithData::init(
            "UBX-UPD-SOS-ACTION",
            UbxCID::new(CLS, ID),
            DataUpdSosAction::from(Command::Clear),
        )
    }
}

} // verus!
