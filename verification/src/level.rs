//! Level, left-right balance and mute of the feature function blocks of the
//! first audio subunit. A table maps the index of a control to its function
//! block and channel.

use vstd::prelude::*;
use crate::audio::{AudioCh, AudioFeature, CtlAttr, FeatureCtl};
use crate::bebob_avc::{command_of, outcome_of, BebobAvc};
use crate::error::{avc_err, Argument, AvcRespParseError, Error};
use crate::frame::{audio_subunit_0, audio_subunit_0_addr, AvcCmdType};
use crate::operation::{AvcOperation, AvcOperationView};

verus! {

/// The lowest level.
pub const LEVEL_MIN: i16 = -0x8000;

/// The highest level.
pub const LEVEL_MAX: i16 = 0;

/// The distance between two levels.
pub const LEVEL_STEP: i16 = 0x100;

/// The balance with everything on one side.
pub const BALANCE_MIN: i16 = -0x8000;

/// The balance with everything on the other side.
pub const BALANCE_MAX: i16 = 0x7ffe;

/// The distance between two balances.
pub const BALANCE_STEP: i16 = 0x80;

/// The value that a status command carries where the reported value is to
/// stand.
pub const VALUE_UNSET: i16 = -1;

/// The frame of the command of type `ctype` for the control `ctl` of the
/// entry at `idx`, or the failure: an index outside the table yields no
/// frame.
pub open spec fn feature_command(
    entries: Seq<(u8, AudioCh)>,
    idx: usize,
    ctype: AvcCmdType,
    ctl: FeatureCtl,
) -> Result<Seq<u8>, Error> {
    if idx >= entries.len() {
        Err(Error::InvalidArgument(Argument::FunctionBlock, idx))
    } else {
        match command_of(
            ctype,
            audio_subunit_0_addr(),
            AvcOperationView::AudioFeature(
                AudioFeature {
                    func_blk_id: entries[idx as int].0,
                    ctl_attr: CtlAttr::Current,
                    audio_ch: entries[idx as int].1,
                    ctl,
                },
            ),
        ) {
            Ok(frame) => Ok(frame),
            Err(e) => Err(avc_err(e)),
        }
    }
}

/// The control that the response to that command reports, or the failure.
pub open spec fn feature_outcome(
    entries: Seq<(u8, AudioCh)>,
    idx: usize,
    ctype: AvcCmdType,
    ctl: FeatureCtl,
    frame: Seq<u8>,
) -> Result<FeatureCtl, Error> {
    if idx >= entries.len() {
        Err(Error::InvalidArgument(Argument::FunctionBlock, idx))
    } else {
        match outcome_of(
            ctype,
            audio_subunit_0_addr(),
            AvcOperationView::AudioFeature(
                AudioFeature {
                    func_blk_id: entries[idx as int].0,
                    ctl_attr: CtlAttr::Current,
                    audio_ch: entries[idx as int].1,
                    ctl,
                },
            ),
            frame,
        ) {
            Ok(AvcOperationView::AudioFeature(op)) => Ok(op.ctl),
            Ok(_) => Err(Error::RespParse(AvcRespParseError::UnexpectedOperands(0))),
            Err(e) => Err(avc_err(e)),
        }
    }
}

/// Builds the frame of a command for a control of an entry.
pub(crate) fn build_feature_command(entries: &[(u8, AudioCh)], idx: usize, ctype: AvcCmdType, ctl: FeatureCtl) -> (frame:
    Result<Vec<u8>, Error>)
    ensures
        match feature_command(entries@, idx, ctype, ctl) {
            Ok(bytes) => frame is Ok && frame->Ok_0@ == bytes,
            Err(e) => frame == Err::<Vec<u8>, Error>(e),
        },
{
    if idx >= entries.len() {
        return Err(Error::InvalidArgument(Argument::FunctionBlock, idx));
    }
    let (func_blk_id, audio_ch) = entries[idx];
    let op = AvcOperation::AudioFeature(AudioFeature { func_blk_id, ctl_attr: CtlAttr::Current, audio_ch, ctl });
    let addr = audio_subunit_0();
    match ctype {
        AvcCmdType::Control => BebobAvc::control_command(&addr, &op),
        AvcCmdType::Status => BebobAvc::status_command(&addr, &op),
    }
}

/// Reads the response to a command for a control of an entry.
pub(crate) fn read_feature_response(
    entries: &[(u8, AudioCh)],
    idx: usize,
    ctype: AvcCmdType,
    ctl: FeatureCtl,
    response_frame: &[u8],
) -> (reported: Result<FeatureCtl, Error>)
    ensures
        reported == feature_outcome(entries@, idx, ctype, ctl, response_frame@),
{
    if idx >= entries.len() {
        return Err(Error::InvalidArgument(Argument::FunctionBlock, idx));
    }
    let (func_blk_id, audio_ch) = entries[idx];
    let mut op = AvcOperation::AudioFeature(AudioFeature { func_blk_id, ctl_attr: CtlAttr::Current, audio_ch, ctl });
    let addr = audio_subunit_0();
    match ctype {
        AvcCmdType::Control => BebobAvc::control(&addr, &mut op, response_frame)?,
        AvcCmdType::Status => BebobAvc::status(&addr, &mut op, response_frame)?,
    }
    match op {
        AvcOperation::AudioFeature(feature) => Ok(feature.ctl),
        _ => Err(Error::RespParse(AvcRespParseError::UnexpectedOperands(0))),
    }
}

/// The level that a reported control holds.
pub open spec fn level_of(reported: Result<FeatureCtl, Error>) -> Result<i16, Error> {
    match reported {
        Ok(FeatureCtl::Volume(vol)) => Ok(vol),
        Ok(_) => Err(Error::RespParse(AvcRespParseError::UnexpectedOperands(5))),
        Err(e) => Err(e),
    }
}

/// The balance that a reported control holds.
pub open spec fn balance_of(reported: Result<FeatureCtl, Error>) -> Result<i16, Error> {
    match reported {
        Ok(FeatureCtl::LrBalance(balance)) => Ok(balance),
        Ok(_) => Err(Error::RespParse(AvcRespParseError::UnexpectedOperands(5))),
        Err(e) => Err(e),
    }
}

/// The switch that a reported control holds.
pub open spec fn mute_of(reported: Result<FeatureCtl, Error>) -> Result<bool, Error> {
    match reported {
        Ok(FeatureCtl::Mute(mute)) => Ok(mute),
        Ok(_) => Err(Error::RespParse(AvcRespParseError::UnexpectedOperands(5))),
        Err(e) => Err(e),
    }
}

/// Whether a response confirms a control command.
pub open spec fn confirmed(reported: Result<FeatureCtl, Error>) -> Result<(), Error> {
    match reported {
        Ok(_) => Ok(()),
        Err(e) => Err(e),
    }
}

/// Level of the channels of feature function blocks.
#[derive(Debug)]
pub struct AvcLevelOperation {
    /// Function block and channel of each control.
    pub entries: Vec<(u8, AudioCh)>,
}

impl AvcLevelOperation {
    /// The capability for a table of function blocks and channels.
    pub fn new(entries: Vec<(u8, AudioCh)>) -> (op: AvcLevelOperation)
        ensures
            op.entries@ == entries@,
    {
        AvcLevelOperation { entries }
    }

    /// The status command that asks for the level of the entry at `idx`.
    pub fn read_level_command(&self, idx: usize) -> (frame: Result<Vec<u8>, Error>)
        ensures
            match feature_command(
                self.entries@,
                idx,
                AvcCmdType::Status,
                FeatureCtl::Volume(VALUE_UNSET),
            ) {
                Ok(bytes) => frame is Ok && frame->Ok_0@ == bytes,
                Err(e) => frame == Err::<Vec<u8>, Error>(e),
            },
            idx >= self.entries@.len() ==> frame is Err,
    {
        build_feature_command(
            self.entries.as_slice(),
            idx,
            AvcCmdType::Status,
            FeatureCtl::Volume(VALUE_UNSET),
        )
    }

    /// Reads the response to the status command: the level of the entry.
    pub fn read_level(&self, idx: usize, response_frame: &[u8]) -> (level: Result<i16, Error>)
        ensures
            level == level_of(
                feature_outcome(
                    self.entries@,
                    idx,
                    AvcCmdType::Status,
                    FeatureCtl::Volume(VALUE_UNSET),
                    response_frame@,
                ),
            ),
    {
        match read_feature_response(
            self.entries.as_slice(),
            idx,
            AvcCmdType::Status,
            FeatureCtl::Volume(VALUE_UNSET),
            response_frame,
        ) {
            Ok(FeatureCtl::Volume(vol)) => Ok(vol),
            Ok(_) => Err(Error::RespParse(AvcRespParseError::UnexpectedOperands(5))),
            Err(e) => Err(e),
        }
    }

    /// The control command that sets the level of the entry at `idx`. The
    /// level goes out as it is given, whether or not it lies between
    /// `LEVEL_MIN` and `LEVEL_MAX`.
    pub fn write_level_command(&self, idx: usize, vol: i16) -> (frame: Result<Vec<u8>, Error>)
        ensures
            match feature_command(
                self.entries@,
                idx,
                AvcCmdType::Control,
                FeatureCtl::Volume(vol),
            ) {
                Ok(bytes) => frame is Ok && frame->Ok_0@ == bytes,
                Err(e) => frame == Err::<Vec<u8>, Error>(e),
            },
            idx >= self.entries@.len() ==> frame is Err,
    {
        build_feature_command(
            self.entries.as_slice(),
            idx,
            AvcCmdType::Control,
            FeatureCtl::Volume(vol),
        )
    }

    /// Reads the response to the control command.
    pub fn write_level(&self, idx: usize, vol: i16, response_frame: &[u8]) -> (done: Result<
        (),
        Error,
    >)
        ensures
            done == confirmed(
                feature_outcome(
                    self.entries@,
                    idx,
                    AvcCmdType::Control,
                    FeatureCtl::Volume(vol),
                    response_frame@,
                ),
            ),
    {
        match read_feature_response(
            self.entries.as_slice(),
            idx,
            AvcCmdType::Control,
            FeatureCtl::Volume(vol),
            response_frame,
        ) {
            Ok(_) => Ok(()),
            Err(e) => Err(e),
        }
    }
}

/// Left-right balance of the channels that have a level.
#[derive(Debug)]
pub struct AvcLrBalanceOperation {
    pub level: AvcLevelOperation,
}

impl AvcLrBalanceOperation {
    /// The capability for the table of a level capability.
    pub fn new(level: AvcLevelOperation) -> (op: AvcLrBalanceOperation)
        ensures
            op.level.entries@ == level.entries@,
    {
        AvcLrBalanceOperation { level }
    }

    /// The status command that asks for the balance of the entry at `idx`.
    pub fn read_lr_balance_command(&self, idx: usize) -> (frame: Result<Vec<u8>, Error>)
        ensures
            match feature_command(
                self.level.entries@,
                idx,
                AvcCmdType::Status,
                FeatureCtl::LrBalance(VALUE_UNSET),
            ) {
                Ok(bytes) => frame is Ok && frame->Ok_0@ == bytes,
                Err(e) => frame == Err::<Vec<u8>, Error>(e),
            },
            idx >= self.level.entries@.len() ==> frame is Err,
    {
        build_feature_command(
            self.level.entries.as_slice(),
            idx,
            AvcCmdType::Status,
            FeatureCtl::LrBalance(VALUE_UNSET),
        )
    }

    /// Reads the response to the status command: the balance of the entry.
    pub fn read_lr_balance(&self, idx: usize, response_frame: &[u8]) -> (balance: Result<
        i16,
        Error,
    >)
        ensures
            balance == balance_of(
                feature_outcome(
                    self.level.entries@,
                    idx,
                    AvcCmdType::Status,
                    FeatureCtl::LrBalance(VALUE_UNSET),
                    response_frame@,
                ),
            ),
    {
        match read_feature_response(
            self.level.entries.as_slice(),
            idx,
            AvcCmdType::Status,
            FeatureCtl::LrBalance(VALUE_UNSET),
            response_frame,
        ) {
            Ok(FeatureCtl::LrBalance(balance)) => Ok(balance),
            Ok(_) => Err(Error::RespParse(AvcRespParseError::UnexpectedOperands(5))),
            Err(e) => Err(e),
        }
    }

    /// The control command that sets the balance of the entry at `idx`. The
    /// balance goes out as it is given.
    pub fn write_lr_balance_command(&self, idx: usize, balance: i16) -> (frame: Result<
        Vec<u8>,
        Error,
    >)
        ensures
            match feature_command(
                self.level.entries@,
                idx,
                AvcCmdType::Control,
                FeatureCtl::LrBalance(balance),
            ) {
                Ok(bytes) => frame is Ok && frame->Ok_0@ == bytes,
                Err(e) => frame == Err::<Vec<u8>, Error>(e),
            },
            idx >= self.level.entries@.len() ==> frame is Err,
    {
        build_feature_command(
            self.level.entries.as_slice(),
            idx,
            AvcCmdType::Control,
            FeatureCtl::LrBalance(balance),
        )
    }

    /// Reads the response to the control command.
    pub fn write_lr_balance(&self, idx: usize, balance: i16, response_frame: &[u8]) -> (done:
        Result<(), Error>)
        ensures
            done == confirmed(
                feature_outcome(
                    self.level.entries@,
                    idx,
                    AvcCmdType::Control,
                    FeatureCtl::LrBalance(balance),
                    response_frame@,
                ),
            ),
    {
        match read_feature_response(
            self.level.entries.as_slice(),
            idx,
            AvcCmdType::Control,
            FeatureCtl::LrBalance(balance),
            response_frame,
        ) {
            Ok(_) => Ok(()),
            Err(e) => Err(e),
        }
    }
}

/// Mute of the channels that have a level.
#[derive(Debug)]
pub struct AvcMuteOperation {
    pub level: AvcLevelOperation,
}

impl AvcMuteOperation {
    /// The capability for the table of a level capability.
    pub fn new(level: AvcLevelOperation) -> (op: AvcMuteOperation)
        ensures
            op.level.entries@ == level.entries@,
    {
        AvcMuteOperation { level }
    }

    /// The status command that asks whether the entry at `idx` is muted.
    pub fn read_mute_command(&self, idx: usize) -> (frame: Result<Vec<u8>, Error>)
        ensures
            match feature_command(
                self.level.entries@,
                idx,
                AvcCmdType::Status,
                FeatureCtl::Mute(false),
            ) {
                Ok(bytes) => frame is Ok && frame->Ok_0@ == bytes,
                Err(e) => frame == Err::<Vec<u8>, Error>(e),
            },
            idx >= self.level.entries@.len() ==> frame is Err,
    {
        build_feature_command(
            self.level.entries.as_slice(),
            idx,
            AvcCmdType::Status,
            FeatureCtl::Mute(false),
        )
    }

    /// Reads the response to the status command: whether the entry is
    /// muted.
    pub fn read_mute(&self, idx: usize, response_frame: &[u8]) -> (mute: Result<bool, Error>)
        ensures
            mute == mute_of(
                feature_outcome(
                    self.level.entries@,
                    idx,
                    AvcCmdType::Status,
                    FeatureCtl::Mute(false),
                    response_frame@,
                ),
            ),
    {
        match read_feature_response(
            self.level.entries.as_slice(),
            idx,
            AvcCmdType::Status,
            FeatureCtl::Mute(false),
            response_frame,
        ) {
            Ok(FeatureCtl::Mute(mute)) => Ok(mute),
            Ok(_) => Err(Error::RespParse(AvcRespParseError::UnexpectedOperands(5))),
            Err(e) => Err(e),
        }
    }

    /// The control command that mutes the entry at `idx` or ends its mute.
    pub fn write_mute_command(&self, idx: usize, mute: bool) -> (frame: Result<Vec<u8>, Error>)
        ensures
            match feature_command(
                self.level.entries@,
                idx,
                AvcCmdType::Control,
                FeatureCtl::Mute(mute),
            ) {
                Ok(bytes) => frame is Ok && frame->Ok_0@ == bytes,
                Err(e) => frame == Err::<Vec<u8>, Error>(e),
            },
            idx >= self.level.entries@.len() ==> frame is Err,
    {
        build_feature_command(
            self.level.entries.as_slice(),
            idx,
            AvcCmdType::Control,
            FeatureCtl::Mute(mute),
        )
    }

    /// Reads the response to the control command.
    pub fn write_mute(&self, idx: usize, mute: bool, response_frame: &[u8]) -> (done: Result<
        (),
        Error,
    >)
        ensures
            done == confirmed(
                feature_outcome(
                    self.level.entries@,
                    idx,
                    AvcCmdType::Control,
                    FeatureCtl::Mute(mute),
                    response_frame@,
                ),
            ),
    {
        match read_feature_response(
            self.level.entries.as_slice(),
            idx,
            AvcCmdType::Control,
            FeatureCtl::Mute(mute),
            response_frame,
        ) {
            Ok(_) => Ok(()),
            Err(e) => Err(e),
        }
    }
}

} // verus!
