//! UBX-CFG-GNSS: the satellite systems that the receiver uses.

use vstd::prelude::*;

use crate::cid::UbxCID;
use crate::frame::{UbxFrame, UbxFrameDeSerialize, UbxFrameInfo, UbxFrameSerialize};
use crate::wire::{get_u32, get_u8, le32, le32_value, put_u32, put_u8};

verus! {

pub const CLS: u8 = 0x06;

pub const ID: u8 = 0x3E;

/// Length of the header of the payload in bytes.
pub const HEADER_LEN: usize = 4;

/// Length of one configuration block of the payload in bytes.
pub const BLOCK_LEN: usize = 8;

/// Largest number of configuration blocks that a header may announce.
pub const MAX_BLOCKS: u8 = 8;

/// A satellite system.
#[derive(Copy, Clone, Debug)]
pub enum SystemName {
    Gps,
    Sbas,
    Galileo,
    Beidou,
    Imes,
    Qzss,
    Glonass,
}

impl SystemName {
    /// The number by which the receiver knows the system.
    pub open spec fn spec_code(&self) -> u8 {
        match self {
            SystemName::Gps => 0,
            SystemName::Sbas => 1,
            SystemName::Galileo => 2,
            SystemName::Beidou => 3,
            SystemName::Imes => 4,
            SystemName::Qzss => 5,
            SystemName::Glonass => 6,
        }
    }

    /// The number by which the receiver knows the system.
    #[verifier::when_used_as_spec(spec_code)]
    pub fn code(&self) -> (code: u8)
        ensures
            code == self.spec_code(),
    {
        match self {
            SystemName::Gps => 0,
            SystemName::Sbas => 1,
            SystemName::Galileo => 2,
            SystemName::Beidou => 3,
            SystemName::Imes => 4,
            SystemName::Qzss => 5,
            SystemName::Glonass => 6,
        }
    }
}

/// The request to report the satellite systems in use.
pub struct UbxCfgGnssPoll {
    pub name: &'static str,
    pub cid: UbxCID,
}

impl UbxCfgGnssPoll {
    pub fn new() -> (frame: Self)
        ensures
            frame.name@ == "UBX-CFG-GNSS-POLL"@,
            frame.cid == UbxCID::new(CLS, ID),
    {
        Self { name: "UBX-CFG-GNSS-POLL", cid: UbxCID::new(CLS, ID) }
    }
}

impl UbxFrameInfo for UbxCfgGnssPoll {
    open spec fn spec_cid(&self) -> UbxCID {
        self.cid
    }

    fn name(&self) -> (name: &'static str)
        ensures
            name == self.name,
    {
        self.name
    }

    fn cid(&self) -> (cid: UbxCID) {
        self.cid
    }
}

impl UbxFrameSerialize for UbxCfgGnssPoll {
    open spec fn frame_cid(&self) -> UbxCID {
        UbxCID::new(CLS, ID)
    }

    open spec fn payload(&self) -> Seq<u8> {
        Seq::empty()
    }

    fn to_bin(&self) -> (bytes: Vec<u8>) {
        let data: [u8; 0] = [];
        proof {
            assert(data@ =~= Seq::<u8>::empty());
        }
        UbxFrame::bytes(UbxCID::new(CLS, ID), data.as_slice())
    }
}

/// Header of the payload: the version of the message, the tracking channels
/// that the hardware has and that are in use, and the number of
/// configuration blocks.
#[derive(Debug, Clone, Copy)]
pub struct Header {
    pub msg_ver: u8,
    pub num_trk_ch_hw: u8,
    pub num_trk_ch_use: u8,
    pub num_config_blocks: u8,
}

impl Default for Header {
    fn default() -> (header: Self)
        ensures
            header == (Header {
                msg_ver: 0,
                num_trk_ch_hw: 0,
                num_trk_ch_use: 0,
                num_config_blocks: 0,
            }),
    {
        Header { msg_ver: 0, num_trk_ch_hw: 0, num_trk_ch_use: 0, num_config_blocks: 0 }
    }
}

/// The configuration of one satellite system. Bit 0 of `flags` says whether
/// the system is in use.
#[derive(Debug, Clone, Copy)]
pub struct CfgBlock {
    pub gnss_id: u8,
    pub res_trk_ch: u8,
    pub max_trk_ch: u8,
    pub res1: u8,
    pub flags: u32,
}

impl Default for CfgBlock {
    fn default() -> (block: Self)
        ensures
            block == (CfgBlock { gnss_id: 0, res_trk_ch: 0, max_trk_ch: 0, res1: 0, flags: 0 }),
    {
        CfgBlock { gnss_id: 0, res_trk_ch: 0, max_trk_ch: 0, res1: 0, flags: 0 }
    }
}

/// The bytes of a header.
pub open spec fn header_wire(header: Header) -> Seq<u8> {
    seq![header.msg_ver, header.num_trk_ch_hw, header.num_trk_ch_use, header.num_config_blocks]
}

/// The bytes of one configuration block.
pub open spec fn block_wire(block: CfgBlock) -> Seq<u8> {
    seq![block.gnss_id, block.res_trk_ch, block.max_trk_ch, block.res1] + le32(block.flags)
}

/// The bytes of some configuration blocks, one block after the other.
pub open spec fn blocks_wire(configs: Seq<CfgBlock>) -> Seq<u8>
    decreases configs.len(),
{
    if configs.len() == 0 {
        Seq::empty()
    } else {
        blocks_wire(configs.drop_last()) + block_wire(configs.last())
    }
}

/// The header that the first four bytes of `data` hold.
pub open spec fn header_at(data: Seq<u8>) -> Header {
    Header {
        msg_ver: data[0],
        num_trk_ch_hw: data[1],
        num_trk_ch_use: data[2],
        num_config_blocks: data[3],
    }
}

/// The configuration block that the eight bytes of `data` from `at` on hold.
pub open spec fn block_at(data: Seq<u8>, at: int) -> CfgBlock {
    CfgBlock {
        gnss_id: data[at],
        res_trk_ch: data[at + 1],
        max_trk_ch: data[at + 2],
        res1: data[at + 3],
        flags: le32_value(data, at + 4),
    }
}

/// The number of configuration blocks that are read from a payload. A
/// payload of eight bytes or less holds none that is read.
pub open spec fn block_count(data: Seq<u8>) -> nat {
    if data.len() > 8 {
        ((data.len() - HEADER_LEN) / BLOCK_LEN as int) as nat
    } else {
        0
    }
}

/// The configuration blocks that a payload holds behind its header.
pub open spec fn blocks_at(data: Seq<u8>) -> Seq<CfgBlock> {
    Seq::new(block_count(data), |i: int| block_at(data, HEADER_LEN + BLOCK_LEN * i))
}

/// Whether `data` is a payload of the message: it holds a header that
/// announces at most eight blocks, and what follows the header is either at
/// most four bytes, which are passed over, or whole blocks.
pub open spec fn is_payload(data: Seq<u8>) -> bool {
    &&& data.len() >= HEADER_LEN
    &&& data[3] <= MAX_BLOCKS
    &&& data.len() > 8 ==> (data.len() - HEADER_LEN) % (BLOCK_LEN as int) == 0
}

/// Whether block `i` is the first one for the system with number `gnss_id`.
pub open spec fn is_first_for(configs: Seq<CfgBlock>, gnss_id: u8, i: int) -> bool {
    &&& 0 <= i < configs.len()
    &&& configs[i].gnss_id == gnss_id
    &&& forall|j: int| 0 <= j < i ==> (#[trigger] configs[j]).gnss_id != gnss_id
}

/// A block with bit 0 of its flags set.
pub open spec fn enabled(block: CfgBlock) -> CfgBlock {
    CfgBlock { flags: block.flags | 1, ..block }
}

/// A block with bit 0 of its flags cleared.
pub open spec fn disabled(block: CfgBlock) -> CfgBlock {
    CfgBlock { flags: block.flags & !1u32, ..block }
}

/// The satellite systems in use, as the receiver reports them and as they
/// are set.
#[derive(Debug)]
pub struct UbxCfgGnss {
    pub name: &'static str,
    pub cid: UbxCID,
    pub header: Header,
    pub configs: Vec<CfgBlock>,
}

impl UbxCfgGnss {
    /// The message without configuration blocks, to be filled from an answer.
    pub fn new() -> (frame: Self)
        ensures
            frame.name@ == "UBX-CFG-GNSS"@,
            frame.cid == UbxCID::new(CLS, ID),
            frame.header == (Header {
                msg_ver: 0,
                num_trk_ch_hw: 0,
                num_trk_ch_use: 0,
                num_config_blocks: 0,
            }),
            frame.configs@ == Seq::<CfgBlock>::empty(),
    {
        Self {
            name: "UBX-CFG-GNSS",
            cid: UbxCID::new(CLS, ID),
            header: Header::default(),
            configs: Vec::new(),
        }
    }

    /// Marks `system` as in use, in the first block that is for it. Where no
    /// block is for it, nothing changes.
    pub fn enable(&mut self, system: SystemName)
        ensures
            final(self).name == old(self).name,
            final(self).cid == old(self).cid,
            final(self).header == old(self).header,
            final(self).configs@.len() == old(self).configs@.len(),
            forall|i: int|
                0 <= i < old(self).configs@.len() ==> #[trigger] final(self).configs@[i] == (
                if is_first_for(old(self).configs@, system.code(), i) {
                    enabled(old(self).configs@[i])
                } else {
                    old(self).configs@[i]
                }),
    {
        if let Some(i) = self.find_config(system) {
            let mut cfg = self.configs[i];
            cfg.flags |= 1;
            self.configs[i] = cfg;
        }
    }

    /// Marks `system` as not in use, in the first block that is for it. Where
    /// no block is for it, nothing changes.
    pub fn disable(&mut self, system: SystemName)
        ensures
            final(self).name == old(self).name,
            final(self).cid == old(self).cid,
            final(self).header == old(self).header,
            final(self).configs@.len() == old(self).configs@.len(),
            forall|i: int|
                0 <= i < old(self).configs@.len() ==> #[trigger] final(self).configs@[i] == (
                if is_first_for(old(self).configs@, system.code(), i) {
                    disabled(old(self).configs@[i])
                } else {
                    old(self).configs@[i]
                }),
    {
        if let Some(i) = self.find_config(system) {
            let mut cfg = self.configs[i];
            cfg.flags &= !1;
            self.configs[i] = cfg;
        }
    }

    /// Marks every system as not in use.
    pub fn disable_all(&mut self)
        ensures
            final(self).name == old(self).name,
            final(self).cid == old(self).cid,
            final(self).header == old(self).header,
            final(self).configs@ == old(self).configs@.map_values(
                |block: CfgBlock| disabled(block),
            ),
    {
        let mut i: usize = 0;
        while i < self.configs.len()
            invariant
                i <= self.configs@.len(),
                self.name == old(self).name,
                self.cid == old(self).cid,
                self.header == old(self).header,
                self.configs@.len() == old(self).configs@.len(),
                forall|j: int| 0 <= j < i ==> #[trigger] self.configs@[j] == disabled(
                    old(self).configs@[j],
                ),
                forall|j: int|
                    i <= j < self.configs@.len() ==> #[trigger] self.configs@[j] == old(
                        self,
                    ).configs@[j],
            decreases self.configs@.len() - i,
        {
            let mut cfg = self.configs[i];
            cfg.flags &= !1;
            self.configs[i] = cfg;
            i += 1;
        }
        proof {
            assert(self.configs@ =~= old(self).configs@.map_values(
                |block: CfgBlock| disabled(block),
            ));
        }
    }

    /// Reads header and configuration blocks from a payload. The blocks are
    /// added behind those that the message holds already.
    pub fn load(&mut self, data: &[u8])
        requires
            is_payload(data@),
        ensures
            final(self).name == old(self).name,
            final(self).cid == old(self).cid,
            final(self).header == header_at(data@),
            final(self).configs@ == old(self).configs@ + blocks_at(data@),
    {
        // First read header to get number of config blocks that follow
        let bytes = data.len();
        self.header = Header {
            msg_ver: get_u8(data, 0),
            num_trk_ch_hw: get_u8(data, 1),
            num_trk_ch_use: get_u8(data, 2),
            num_config_blocks: get_u8(data, 3),
        };

        // Then read configuration blocks
        if bytes > 8 {
            let mut offset: usize = 4;
            let size: usize = 8;
            let ghost mut count: int = 0;
            while offset < bytes
                invariant
                    bytes == data@.len(),
                    size == 8,
                    offset == 4 + 8 * count,
                    0 <= count <= block_count(data@),
                    offset <= bytes,
                    (bytes - 4) % 8 == 0,
                    bytes > 8,
                    self.name == old(self).name,
                    self.cid == old(self).cid,
                    self.header == header_at(data@),
                    self.configs@ == old(self).configs@ + blocks_at(data@).take(count),
                decreases bytes - offset,
            {
                let cfg = CfgBlock {
                    gnss_id: get_u8(data, offset),
                    res_trk_ch: get_u8(data, offset + 1),
                    max_trk_ch: get_u8(data, offset + 2),
                    res1: get_u8(data, offset + 3),
                    flags: get_u32(data, offset + 4),
                };
                self.configs.push(cfg);
                proof {
                    assert(count < block_count(data@));
                    assert(cfg == blocks_at(data@)[count]);
                    assert((old(self).configs@ + blocks_at(data@).take(count)).push(cfg) =~= old(
                        self,
                    ).configs@ + blocks_at(data@).take(count + 1));
                    count = count + 1;
                }
                offset += size;
            }
            proof {
                assert(count == block_count(data@));
                assert(blocks_at(data@).take(count) =~= blocks_at(data@));
            }
        } else {
            proof {
                assert(old(self).configs@ + blocks_at(data@) =~= old(self).configs@);
            }
        }
    }

    /// The payload: the header and the configuration blocks.
    pub fn save(&self) -> (data: Vec<u8>)
        ensures
            data@ == header_wire(self.header) + blocks_wire(self.configs@),
    {
        let mut data = Vec::new();
        put_u8(&mut data, self.header.msg_ver);
        put_u8(&mut data, self.header.num_trk_ch_hw);
        put_u8(&mut data, self.header.num_trk_ch_use);
        put_u8(&mut data, self.header.num_config_blocks);
        proof {
            assert(data@ =~= header_wire(self.header) + blocks_wire(self.configs@.take(0)));
        }

        let mut i: usize = 0;
        while i < self.configs.len()
            invariant
                i <= self.configs@.len(),
                data@ == header_wire(self.header) + blocks_wire(self.configs@.take(i as int)),
            decreases self.configs@.len() - i,
        {
            let cfg = self.configs[i];
            let ghost before = data@;
            put_u8(&mut data, cfg.gnss_id);
            put_u8(&mut data, cfg.res_trk_ch);
            put_u8(&mut data, cfg.max_trk_ch);
            put_u8(&mut data, cfg.res1);
            put_u32(&mut data, cfg.flags);
            proof {
                assert(self.configs@.take(i + 1).drop_last() =~= self.configs@.take(i as int));
                assert(data@ =~= before + block_wire(cfg));
                assert(data@ =~= header_wire(self.header) + blocks_wire(
                    self.configs@.take(i + 1),
                ));
            }
            i += 1;
        }
        proof {
            assert(self.configs@.take(self.configs@.len() as int) =~= self.configs@);
        }
        data
    }

    /// The place of the first block that is for `system`, if there is one.
    pub fn find_config(&self, system: SystemName) -> (found: Option<usize>)
        ensures
            match found {
                Some(i) => is_first_for(self.configs@, system.code(), i as int),
                None => forall|j: int|
                    0 <= j < self.configs@.len() ==> (#[trigger] self.configs@[j]).gnss_id
                        != system.code(),
            },
    {
        let mut i: usize = 0;
        while i < self.configs.len()
            invariant
                i <= self.configs@.len(),
                forall|j: int|
                    0 <= j < i ==> (#[trigger] self.configs@[j]).gnss_id != system.code(),
            decreases self.configs@.len() - i,
        {
            if self.configs[i].gnss_id == system.code() {
                return Some(i);
            }
            i += 1;
        }
        None
    }
}

impl UbxFrameInfo for UbxCfgGnss {
    open spec fn spec_cid(&self) -> UbxCID {
        self.cid
    }

    fn name(&self) -> (name: &'static str)
        ensures
            name == self.name,
    {
        self.name
    }

    fn cid(&self) -> (cid: UbxCID) {
        self.cid
    }
}

impl UbxFrameSerialize for UbxCfgGnss {
    open spec fn frame_cid(&self) -> UbxCID {
        UbxCID::new(CLS, ID)
    }

    open spec fn payload(&self) -> Seq<u8> {
        header_wire(self.header) + blocks_wire(self.configs@)
    }

    fn to_bin(&self) -> (bytes: Vec<u8>) {
        let data = self.save();
        UbxFrame::bytes(UbxCID::new(CLS, ID), data.as_slice())
    }
}

impl UbxFrameDeSerialize for UbxCfgGnss {
    open spec fn accepts(&self, data: Seq<u8>) -> bool {
        is_payload(data)
    }

    fn can_load(&self, data: &[u8]) -> (ok: bool) {
        let bytes = data.len();
        bytes >= 4 && data[3] <= MAX_BLOCKS && (bytes <= 8 || (bytes - 4) % 8 == 0)
    }

    /// The header is the one that `data` holds, and the blocks of `data`
    /// stand behind those that the message held before; name and identifier
    /// stay.
    open spec fn filled_from(&self, before: &Self, data: Seq<u8>) -> bool {
        &&& self.name == before.name
        &&& self.cid == before.cid
        &&& self.header == header_at(data)
        &&& self.configs@ == before.configs@ + blocks_at(data)
    }

    /// Reads header and configuration blocks from a payload, as `load` does.
    fn from_bin(&mut self, data: &[u8]) {
        self.load(data);
    }
}

} // verus!
