//! The rules by which the receiver manager drives a NEO-M8 modem: which baud
//! rates it tries, which values it accepts, and what it changes in a message
//! that the modem has reported.

use vstd::prelude::*;
use vstd::string::*;

use crate::config_file::Angles;
use crate::error::Error;
use crate::frame::UbxFrameWithData;
use crate::ubx_cfg_esfalg;
use crate::ubx_cfg_gnss::{disabled, enabled, is_first_for, CfgBlock, SystemName, UbxCfgGnss};
use crate::ubx_cfg_nav5;
use crate::ubx_cfg_nmea;
use crate::ubx_cfg_prt::DataCfgPrt;
use crate::ubx_cfg_rate;
use crate::ubx_upd_sos::Response;

verus! {

/// The number of baud rates that are tried.
pub const BITRATE_COUNT: usize = 4;

/// The baud rates that are tried, in the order in which they are tried.
pub open spec fn bitrates() -> Seq<usize> {
    seq![115200usize, 38400usize, 19200usize, 9600usize]
}

/// The baud rate that is tried at place `index`.
pub fn bitrate(index: usize) -> (rate: usize)
    requires
        index < BITRATE_COUNT,
    ensures
        rate == bitrates()[index as int],
{
    if index == 0 {
        115200
    } else if index == 1 {
        38400
    } else if index == 2 {
        19200
    } else {
        9600
    }
}

/// What the detection of the baud rate asks for next.
#[derive(Debug, Clone, Copy, PartialEq, Eq, Structural)]
pub enum Probe {
    /// Set the channel to this baud rate and report whether that worked.
    Configure(usize),
    /// Look for signs of life at the rate that was set and report the result.
    Listen,
    /// The receiver talks at this baud rate.
    Detected(usize),
    /// The detection has failed.
    Failed(Error),
}

/// What the detection of the baud rate waits to hear of.
#[derive(Debug, Clone, Copy, PartialEq, Eq, Structural)]
pub enum ProbeStage {
    /// Whether the channel could be set to the rate.
    Configuring,
    /// Whether the receiver was heard at the rate.
    Listening,
    /// Nothing: the detection has ended.
    Ended,
}

/// The detection of the baud rate: the candidates are tried in their order,
/// and the first at which the receiver is heard is the rate.
#[derive(Debug)]
pub struct BaudDetection {
    index: usize,
    stage: ProbeStage,
    outcome: Result<usize, Error>,
}

/// A detection, for contracts.
pub struct DetectionView {
    /// The place of the candidate that is being tried.
    pub index: nat,
    /// What the detection waits to hear of.
    pub stage: ProbeStage,
    /// The result, once the detection has ended.
    pub outcome: Result<usize, Error>,
}

/// The action that a detection waits to hear of.
pub open spec fn pending_probe(d: DetectionView) -> Probe {
    match d.stage {
        ProbeStage::Configuring => Probe::Configure(bitrates()[d.index as int]),
        ProbeStage::Listening => Probe::Listen,
        ProbeStage::Ended => match d.outcome {
            Ok(rate) => Probe::Detected(rate),
            Err(error) => Probe::Failed(error),
        },
    }
}

/// The detection after it was told whether the channel could be set to the
/// rate: where it could not, the detection fails with that error.
pub open spec fn after_configure(d: DetectionView, configured: Result<(), Error>) -> DetectionView {
    if d.stage != ProbeStage::Configuring {
        d
    } else {
        match configured {
            Ok(_) => DetectionView { stage: ProbeStage::Listening, ..d },
            Err(error) => DetectionView { stage: ProbeStage::Ended, outcome: Err(error), ..d },
        }
    }
}

/// The detection after it was told whether the receiver was heard: where it
/// was, the rate is found; where it was not, the next candidate is tried, and
/// after the last one the detection fails.
pub open spec fn after_listen(d: DetectionView, heard: bool) -> DetectionView {
    if d.stage != ProbeStage::Listening {
        d
    } else if heard {
        DetectionView { stage: ProbeStage::Ended, outcome: Ok(bitrates()[d.index as int]), ..d }
    } else if d.index + 1 < BITRATE_COUNT {
        DetectionView { index: d.index + 1, stage: ProbeStage::Configuring, ..d }
    } else {
        DetectionView {
            stage: ProbeStage::Ended,
            outcome: Err(Error::BaudRateDetectionFailed),
            ..d
        }
    }
}

/// The detection after the candidates from the current one on were tried in
/// turn, where the channel could be set to each rate and `heard` says, for
/// each candidate that was tried, whether the receiver was heard.
pub open spec fn after_trials(d: DetectionView, heard: Seq<bool>) -> DetectionView
    decreases heard.len(),
{
    if heard.len() == 0 {
        d
    } else {
        after_listen(
            after_configure(after_trials(d, heard.drop_last()), Ok(())),
            heard.last(),
        )
    }
}

impl View for BaudDetection {
    type V = DetectionView;

    closed spec fn view(&self) -> DetectionView {
        DetectionView { index: self.index as nat, stage: self.stage, outcome: self.outcome }
    }
}

impl BaudDetection {
    /// Well-formedness: the candidate that is being tried is one of the
    /// candidates.
    pub closed spec fn wf(&self) -> bool {
        self.index < BITRATE_COUNT
    }

    /// A detection that begins with the first candidate: the channel is to be
    /// set to the first baud rate. Until a rate is found, the result that the
    /// detection holds is the failure that it ends with when no candidate is
    /// left.
    pub fn new() -> (detection: Self)
        ensures
            detection.wf(),
            detection@ == (DetectionView {
                index: 0,
                stage: ProbeStage::Configuring,
                outcome: Err(Error::BaudRateDetectionFailed),
            }),
    {
        Self {
            index: 0,
            stage: ProbeStage::Configuring,
            outcome: Err(Error::BaudRateDetectionFailed),
        }
    }

    /// The baud rate that is being tried, or was tried last.
    pub fn candidate(&self) -> (rate: usize)
        requires
            self.wf(),
        ensures
            rate == bitrates()[self@.index as int],
    {
        bitrate(self.index)
    }

    /// The action that is pending.
    pub fn probe(&self) -> (probe: Probe)
        requires
            self.wf(),
        ensures
            probe == pending_probe(self@),
    {
        match self.stage {
            ProbeStage::Configuring => Probe::Configure(bitrate(self.index)),
            ProbeStage::Listening => Probe::Listen,
            ProbeStage::Ended => match self.outcome {
                Ok(rate) => Probe::Detected(rate),
                Err(error) => Probe::Failed(error),
            },
        }
    }

    /// Takes in whether the channel could be set to the rate.
    pub fn configured(&mut self, result: Result<(), Error>) -> (probe: Probe)
        requires
            old(self).wf(),
        ensures
            final(self).wf(),
            final(self)@ == after_configure(old(self)@, result),
            probe == pending_probe(final(self)@),
    {
        match self.stage {
            ProbeStage::Configuring => match result {
                Ok(_) => {
                    self.stage = ProbeStage::Listening;
                },
                Err(error) => {
                    self.stage = ProbeStage::Ended;
                    self.outcome = Err(error);
                },
            },
            _ => {},
        }
        self.probe()
    }

    /// Takes in whether the receiver was heard at the rate.
    pub fn listened(&mut self, heard: bool) -> (probe: Probe)
        requires
            old(self).wf(),
        ensures
            final(self).wf(),
            final(self)@ == after_listen(old(self)@, heard),
            probe == pending_probe(final(self)@),
    {
        match self.stage {
            ProbeStage::Listening => {
                if heard {
                    self.stage = ProbeStage::Ended;
                    self.outcome = Ok(bitrate(self.index));
                } else if self.index + 1 < BITRATE_COUNT {
                    self.index += 1;
                    self.stage = ProbeStage::Configuring;
                } else {
                    self.stage = ProbeStage::Ended;
                    self.outcome = Err(Error::BaudRateDetectionFailed);
                }
            },
            _ => {},
        }
        self.probe()
    }
}

/// First working rate: where the receiver is not heard at the first
/// candidates and is heard at the next one, that one is the rate that is
/// detected.
pub proof fn lemma_first_heard_is_detected(d: DetectionView, silent: nat)
    requires
        d.index == 0,
        d.stage == ProbeStage::Configuring,
        silent < BITRATE_COUNT,
    ensures
        after_trials(d, Seq::new(silent, |i: int| false).push(true)) == (DetectionView {
            index: silent,
            stage: ProbeStage::Ended,
            outcome: Ok(bitrates()[silent as int]),
        }),
{
    let quiet = Seq::new(silent, |i: int| false);
    lemma_unheard(d, silent);
    assert(quiet.push(true).drop_last() =~= quiet);
}

/// Where the receiver is heard at none of the first candidates, the next
/// candidate is tried.
pub proof fn lemma_unheard(d: DetectionView, silent: nat)
    requires
        d.index == 0,
        d.stage == ProbeStage::Configuring,
        silent < BITRATE_COUNT,
    ensures
        after_trials(d, Seq::new(silent, |i: int| false)) == (DetectionView {
            index: silent,
            stage: ProbeStage::Configuring,
            ..d
        }),
    decreases silent,
{
    let quiet = Seq::new(silent, |i: int| false);
    if silent > 0 {
        lemma_unheard(d, (silent - 1) as nat);
        assert(quiet.drop_last() =~= Seq::new((silent - 1) as nat, |i: int| false));
    }
}

/// Candidates exhausted: where the receiver is heard at none of the
/// candidates, the detection fails with `BaudRateDetectionFailed`.
pub proof fn lemma_none_heard_fails(d: DetectionView)
    requires
        d.index == 0,
        d.stage == ProbeStage::Configuring,
    ensures
        after_trials(d, Seq::new(BITRATE_COUNT as nat, |i: int| false)) == (DetectionView {
            index: (BITRATE_COUNT - 1) as nat,
            stage: ProbeStage::Ended,
            outcome: Err(Error::BaudRateDetectionFailed),
        }),
{
    let quiet = Seq::new(BITRATE_COUNT as nat, |i: int| false);
    lemma_unheard(d, (BITRATE_COUNT - 1) as nat);
    assert(quiet.drop_last() =~= Seq::new((BITRATE_COUNT - 1) as nat, |i: int| false));
}

/// Whether the port settings that the modem reports confirm that it talks
/// at `baud`.
pub fn detect_baudrate_active(baud: usize, response: &UbxFrameWithData<DataCfgPrt>) -> (matches:
    bool)
    ensures
        matches == (response.data.baudrate == baud),
{
    response.data.baudrate as usize == baud
}

/// What the reported state of the backup means: `Ok` where it was restored,
/// `ModemNobackup` where there was none, `ModemBackupRestoreFailed`
/// otherwise.
pub fn sos_check(response: Response) -> (result: Result<(), Error>)
    ensures
        result == match response {
            Response::Restored => Ok::<(), Error>(()),
            Response::NotRestoredNoBackup => Err(Error::ModemNobackup),
            _ => Err(Error::ModemBackupRestoreFailed),
        },
{
    match response {
        Response::Restored => Ok(()),
        Response::NotRestoredNoBackup => Err(Error::ModemNobackup),
        _ => Err(Error::ModemBackupRestoreFailed),
    }
}

/// Puts the baud rate into the port settings that the modem has reported,
/// and says whether they have to be sent at all. Only 115200 and 9600 are
/// baud rates that the modem is set to.
pub fn set_modem_baudrate(set: &mut UbxFrameWithData<DataCfgPrt>, baudrate: u32) -> (changed:
    Result<bool, Error>)
    ensures
        baudrate != 115200 && baudrate != 9600 ==> changed == Err::<bool, Error>(
            Error::InvalidArgument,
        ) && *final(set) == *old(set),
        baudrate == 115200 || baudrate == 9600 ==> changed == Ok::<bool, Error>(
            old(set).data.baudrate != baudrate,
        ) && *final(set) == (UbxFrameWithData {
            data: DataCfgPrt { baudrate, ..old(set).data },
            ..*old(set)
        }),
{
    if baudrate != 115200 && baudrate != 9600 {
        return Err(Error::InvalidArgument);
    }
    if set.data.baudrate != baudrate {
        set.data.baudrate = baudrate;
        Ok(true)
    } else {
        Ok(false)
    }
}

/// The time between two measurements in milliseconds for an update rate in
/// Hertz. Rates from 1 to 10 Hertz are accepted.
pub open spec fn measurement_period(rate_in_hz: u16) -> Result<u16, Error> {
    if rate_in_hz < 1 || rate_in_hz > 10 {
        Err(Error::InvalidArgument)
    } else {
        Ok((1000int / rate_in_hz as int) as u16)
    }
}

/// The time between two measurements in milliseconds for an update rate in
/// Hertz.
pub fn update_period(rate_in_hz: u16) -> (period: Result<u16, Error>)
    ensures
        period == measurement_period(rate_in_hz),
{
    if rate_in_hz < 1 || rate_in_hz > 10 {
        return Err(Error::InvalidArgument);
    }
    Ok(1000u16 / rate_in_hz)
}

/// Puts the update rate into the rates that the modem has reported, and says
/// whether they have to be sent at all.
pub fn set_update_rate(set: &mut UbxFrameWithData<ubx_cfg_rate::Data>, rate_in_hz: u16) -> (changed:
    Result<bool, Error>)
    ensures
        match measurement_period(rate_in_hz) {
            Ok(period) => changed == Ok::<bool, Error>(old(set).data.meas_rate != period)
                && *final(set) == (UbxFrameWithData {
                data: ubx_cfg_rate::Data { meas_rate: period, ..old(set).data },
                ..*old(set)
            }),
            Err(error) => changed == Err::<bool, Error>(error) && *final(set) == *old(set),
        },
{
    let new_time = match update_period(rate_in_hz) {
        Ok(period) => period,
        Err(error) => {
            return Err(error);
        },
    };
    if set.data.meas_rate != new_time {
        set.data.meas_rate = new_time;
        Ok(true)
    } else {
        Ok(false)
    }
}

/// The number by which the modem knows a version of the NMEA protocol.
pub open spec fn nmea_version_code(version: Seq<char>) -> Result<u8, Error> {
    if version == "4.0"@ {
        Ok(0x40u8)
    } else if version == "4.1"@ {
        Ok(0x41u8)
    } else if version == "4.11"@ {
        Ok(0x4bu8)
    } else {
        Err(Error::InvalidArgument)
    }
}

fn same_text(a: &str, b: &str) -> (same: bool)
    ensures
        same == (a@ == b@),
{
    String::from_str(a) == String::from_str(b)
}

/// The number by which the modem knows a version of the NMEA protocol.
pub fn nmea_version(version: &str) -> (code: Result<u8, Error>)
    ensures
        code == nmea_version_code(version@),
{
    if same_text(version, "4.0") {
        Ok(0x40)
    } else if same_text(version, "4.1") {
        Ok(0x41)
    } else if same_text(version, "4.11") {
        Ok(0x4b)
    } else {
        Err(Error::InvalidArgument)
    }
}

/// Puts the version of the NMEA protocol into the settings that the modem
/// has reported, and says whether they have to be sent at all. The versions
/// are `4.0`, `4.1` and `4.11`.
pub fn set_nmea_protocol_version(
    set: &mut UbxFrameWithData<ubx_cfg_nmea::Data>,
    version: &str,
) -> (changed: Result<bool, Error>)
    ensures
        match nmea_version_code(version@) {
            Ok(code) => changed == Ok::<bool, Error>(old(set).data.nmea_version != code)
                && *final(set) == (UbxFrameWithData {
                data: ubx_cfg_nmea::Data { nmea_version: code, ..old(set).data },
                ..*old(set)
            }),
            Err(error) => changed == Err::<bool, Error>(error) && *final(set) == *old(set),
        },
{
    let ubx_ver: u8 = match nmea_version(version) {
        Ok(code) => code,
        Err(error) => {
            return Err(error);
        },
    };
    if set.data.nmea_version != ubx_ver {
        set.data.nmea_version = ubx_ver;
        Ok(true)
    } else {
        Ok(false)
    }
}

/// The number by which the modem knows a dynamic model.
pub open spec fn dynamic_model_code(model: Seq<char>) -> Result<u8, Error> {
    if model == "stationary"@ {
        Ok(2u8)
    } else if model == "vehicle"@ {
        Ok(4u8)
    } else {
        Err(Error::InvalidArgument)
    }
}

/// The number by which the modem knows a dynamic model.
pub fn dynamic_model(model: &str) -> (code: Result<u8, Error>)
    ensures
        code == dynamic_model_code(model@),
{
    if same_text(model, "stationary") {
        Ok(2)
    } else if same_text(model, "vehicle") {
        Ok(4)
    } else {
        Err(Error::InvalidArgument)
    }
}

/// Puts the dynamic model into the settings that the modem has reported, and
/// says whether they have to be sent at all. The models are `stationary` and
/// `vehicle`.
pub fn set_dynamic_mode(set: &mut UbxFrameWithData<ubx_cfg_nav5::Data>, model: &str) -> (changed:
    Result<bool, Error>)
    ensures
        match dynamic_model_code(model@) {
            Ok(code) => changed == Ok::<bool, Error>(old(set).data.dyn_model != code)
                && *final(set) == (UbxFrameWithData {
                data: ubx_cfg_nav5::Data { dyn_model: code, ..old(set).data },
                ..*old(set)
            }),
            Err(error) => changed == Err::<bool, Error>(error) && *final(set) == *old(set),
        },
{
    let model: u8 = match dynamic_model(model) {
        Ok(code) => code,
        Err(error) => {
            return Err(error);
        },
    };
    if set.data.dyn_model != model {
        set.data.dyn_model = model;
        Ok(true)
    } else {
        Ok(false)
    }
}

/// Whether the mounting angles are within their bounds: yaw up to 360, pitch
/// from -90 to 90 and roll from -180 to 180 degrees.
pub open spec fn angles_in_range(angles: Angles) -> bool {
    &&& angles.yaw <= 360
    &&& -90 <= angles.pitch <= 90
    &&& -180 <= angles.roll <= 180
}

/// Tells whether the mounting angles are within their bounds.
pub fn check_imu_angles(angles: Angles) -> (result: Result<(), Error>)
    ensures
        angles_in_range(angles) ==> result is Ok,
        !angles_in_range(angles) ==> result == Err::<(), Error>(Error::InvalidArgument),
{
    if angles.yaw > 360 || angles.pitch > 90 || angles.pitch < -90 || angles.roll > 180
        || angles.roll < -180 {
        return Err(Error::InvalidArgument);
    }
    Ok(())
}

/// Puts the mounting angles, in hundredths of a degree, into the alignment
/// that the modem has reported.
pub fn set_imu_angles(set: &mut UbxFrameWithData<ubx_cfg_esfalg::Data>, angles: Angles) -> (result:
    Result<(), Error>)
    ensures
        angles_in_range(angles) ==> result is Ok && *final(set) == (UbxFrameWithData {
            data: ubx_cfg_esfalg::Data {
                yaw: (angles.yaw * 100) as u32,
                pitch: (angles.pitch * 100) as i16,
                roll: (angles.roll * 100) as i16,
                ..old(set).data
            },
            ..*old(set)
        }),
        !angles_in_range(angles) ==> result == Err::<(), Error>(Error::InvalidArgument)
            && *final(set) == *old(set),
{
    match check_imu_angles(angles) {
        Ok(_) => {},
        Err(error) => {
            return Err(error);
        },
    }
    set.data.yaw = angles.yaw * 100;
    set.data.pitch = angles.pitch * 100;
    set.data.roll = angles.roll * 100;
    Ok(())
}

/// The name by which the configuration knows a satellite system.
pub open spec fn system_name(system: SystemName) -> Seq<char> {
    match system {
        SystemName::Gps => "gps"@,
        SystemName::Sbas => "sbas"@,
        SystemName::Galileo => "galileo"@,
        SystemName::Beidou => "beidou"@,
        SystemName::Imes => "imes"@,
        SystemName::Qzss => "qzss"@,
        SystemName::Glonass => "glonass"@,
    }
}

/// Whether `systems` holds `name`.
pub fn contains(systems: &[String], name: &str) -> (found: bool)
    ensures
        found == exists|i: int| 0 <= i < systems@.len() && (#[trigger] systems@[i])@ == name@,
{
    let mut i: usize = 0;
    while i < systems.len()
        invariant
            i <= systems@.len(),
            forall|j: int| 0 <= j < i ==> (#[trigger] systems@[j])@ != name@,
        decreases systems@.len() - i,
    {
        if same_text(systems[i].as_str(), name) {
            return true;
        }
        i += 1;
    }
    false
}

/// Whether the configuration asks for `system`.
pub open spec fn wanted(systems: Seq<String>, system: SystemName) -> bool {
    exists|i: int| 0 <= i < systems.len() && (#[trigger] systems[i])@ == system_name(system)
}

/// A block after the systems were chosen: bit 0 of its flags is set where
/// `chosen` says so, and cleared where not.
pub open spec fn chosen_block(block: CfgBlock, chosen: bool) -> CfgBlock {
    if chosen {
        enabled(disabled(block))
    } else {
        disabled(block)
    }
}

/// Whether block `i` is one that `set_systems` marks as in use: it is the
/// first block for a system that the configuration asks for.
pub open spec fn block_chosen(configs: Seq<CfgBlock>, systems: Seq<String>, i: int) -> bool {
    exists|system: SystemName| #[trigger]
        wanted(systems, system) && is_first_for(configs, system.code(), i)
}

/// The satellite system with number `code`.
pub open spec fn system_at(code: int) -> SystemName {
    if code == 0 {
        SystemName::Gps
    } else if code == 1 {
        SystemName::Sbas
    } else if code == 2 {
        SystemName::Galileo
    } else if code == 3 {
        SystemName::Beidou
    } else if code == 4 {
        SystemName::Imes
    } else if code == 5 {
        SystemName::Qzss
    } else {
        SystemName::Glonass
    }
}

/// Whether block `i` is the first block for one of the first `upto` systems
/// that the configuration asks for.
spec fn chosen_upto(configs: Seq<CfgBlock>, systems: Seq<String>, upto: int, i: int) -> bool {
    exists|code: int|
        0 <= code < upto && #[trigger] wanted(systems, system_at(code)) && is_first_for(
            configs,
            code as u8,
            i,
        )
}

/// Whether two sequences of blocks are for the same systems, place by place.
spec fn same_systems(a: Seq<CfgBlock>, b: Seq<CfgBlock>) -> bool {
    &&& a.len() == b.len()
    &&& forall|m: int|
        #![trigger a[m]]
        #![trigger b[m]]
        0 <= m < a.len() ==> a[m].gnss_id == b[m].gnss_id
}

/// Which block is the first for a system depends on the systems of the
/// blocks only.
proof fn lemma_first_by_systems(a: Seq<CfgBlock>, b: Seq<CfgBlock>, gnss_id: u8, i: int)
    requires
        same_systems(a, b),
    ensures
        is_first_for(a, gnss_id, i) == is_first_for(b, gnss_id, i),
{
}

/// The blocks that are chosen among all seven systems are the blocks that
/// are chosen.
proof fn lemma_chosen_among_all(configs: Seq<CfgBlock>, systems: Seq<String>, i: int)
    ensures
        chosen_upto(configs, systems, 7, i) == block_chosen(configs, systems, i),
{
    if chosen_upto(configs, systems, 7, i) {
        let code = choose|code: int|
            0 <= code < 7 && #[trigger] wanted(systems, system_at(code)) && is_first_for(
                configs,
                code as u8,
                i,
            );
        assert(system_at(code).code() == code);
        assert(wanted(systems, system_at(code)) && is_first_for(
            configs,
            system_at(code).code(),
            i,
        ));
    }
    if block_chosen(configs, systems, i) {
        let system = choose|system: SystemName| #[trigger]
            wanted(systems, system) && is_first_for(configs, system.code(), i);
        let code = system.code() as int;
        assert(system_at(code) == system);
        assert(0 <= code < 7 && wanted(systems, system_at(code)) && is_first_for(
            configs,
            code as u8,
            i,
        ));
    }
}

/// Marks the satellite systems that the configuration asks for as in use,
/// and every other system as not in use. A name that is no system is passed
/// over.
pub fn set_systems(set: &mut UbxCfgGnss, systems: &[String])
    ensures
        final(set).name == old(set).name,
        final(set).cid == old(set).cid,
        final(set).header == old(set).header,
        final(set).configs@.len() == old(set).configs@.len(),
        forall|i: int|
            0 <= i < old(set).configs@.len() ==> #[trigger] final(set).configs@[i] == chosen_block(
                old(set).configs@[i],
                block_chosen(old(set).configs@, systems@, i),
            ),
{
    let ghost initial = set.configs@;
    set.disable_all();
    let order = [
        SystemName::Gps,
        SystemName::Sbas,
        SystemName::Galileo,
        SystemName::Beidou,
        SystemName::Imes,
        SystemName::Qzss,
        SystemName::Glonass,
    ];
    let names = ["gps", "sbas", "galileo", "beidou", "imes", "qzss", "glonass"];
    proof {
        assert forall|i: int| 0 <= i < initial.len() implies !chosen_upto(
            initial,
            systems@,
            0,
            i,
        ) by {}
    }
    let mut k: usize = 0;
    while k < 7
        invariant
            k <= 7,
            order@.len() == 7,
            names@.len() == 7,
            forall|j: int| 0 <= j < 7 ==> #[trigger] order@[j] == system_at(j),
            forall|j: int| 0 <= j < 7 ==> (#[trigger] names@[j])@ == system_name(system_at(j)),
            set.name == old(set).name,
            set.cid == old(set).cid,
            set.header == old(set).header,
            initial == old(set).configs@,
            same_systems(set.configs@, initial),
            forall|i: int|
                0 <= i < initial.len() ==> #[trigger] set.configs@[i] == chosen_block(
                    initial[i],
                    chosen_upto(initial, systems@, k as int, i),
                ),
        decreases 7 - k,
    {
        let system = order[k];
        let ghost before = set.configs@;
        if contains(systems, names[k]) {
            set.enable(system);
            proof {
                assert(wanted(systems@, system_at(k as int)));
                assert forall|i: int| 0 <= i < initial.len() implies #[trigger] set.configs@[i]
                    == chosen_block(
                    initial[i],
                    chosen_upto(initial, systems@, k + 1, i),
                ) by {
                    lemma_first_by_systems(before, initial, system.code(), i);
                    lemma_enable_once(disabled(initial[i]));
                    assert(before[i] == chosen_block(
                        initial[i],
                        chosen_upto(initial, systems@, k as int, i),
                    ));
                    if is_first_for(initial, system.code(), i) {
                        assert(chosen_upto(initial, systems@, k + 1, i));
                    }
                }
                assert(same_systems(set.configs@, initial)) by {
                    assert forall|m: int| 0 <= m < initial.len() implies (
                    #[trigger] set.configs@[m]).gnss_id == initial[m].gnss_id by {
                        assert(before[m].gnss_id == initial[m].gnss_id);
                    }
                }
            }
        } else {
            proof {
                assert(!wanted(systems@, system_at(k as int)));
                assert forall|i: int| 0 <= i < initial.len() implies chosen_upto(
                    initial,
                    systems@,
                    k + 1,
                    i,
                ) == chosen_upto(initial, systems@, k as int, i) by {}
            }
        }
        k += 1;
    }
    proof {
        assert forall|i: int| 0 <= i < old(set).configs@.len() implies #[trigger] set.configs@[i]
            == chosen_block(
            old(set).configs@[i],
            block_chosen(old(set).configs@, systems@, i),
        ) by {
            lemma_chosen_among_all(initial, systems@, i);
        }
    }
}

/// Setting bit 0 twice is setting it once.
proof fn lemma_enable_once(block: CfgBlock)
    ensures
        enabled(enabled(block)) == enabled(block),
{
    let flags = block.flags;
    assert((flags | 1) | 1 == flags | 1) by (bit_vector);
}

} // verus!
