//! Operands of the function block command of audio subunits: feature
//! function blocks (volume, left-right balance, mute) and selector function
//! blocks.

use vstd::prelude::*;
use crate::error::{AvcCmdBuildError, AvcRespParseError};
use crate::frame::{AvcAddr, AvcCmdType};

verus! {

/// Opcode of the function block command.
pub const FUNCTION_BLOCK_OPCODE: u8 = 0xb8;

/// Function block type of selector function blocks.
pub const FUNC_BLK_SELECTOR: u8 = 0x80;

/// Function block type of feature function blocks.
pub const FUNC_BLK_FEATURE: u8 = 0x81;

/// Code of the control attribute "current".
pub const CTL_ATTR_CURRENT: u8 = 0x10;

/// Control selector of the only control of a selector function block.
pub const SELECTOR_CONTROL: u8 = 0x01;

/// Control selector of the mute control.
pub const FEATURE_MUTE: u8 = 0x01;

/// Control selector of the volume control.
pub const FEATURE_VOLUME: u8 = 0x02;

/// Control selector of the left-right balance control.
pub const FEATURE_LR_BALANCE: u8 = 0x03;

/// Encoding of an engaged switch.
pub const FEATURE_TRUE: u8 = 0x70;

/// Encoding of a released switch.
pub const FEATURE_FALSE: u8 = 0x60;

/// The value that stands for negative infinity in level and balance.
pub const NEG_INFINITY: i16 = -0x8000;

/// The value that stands for positive infinity in balance.
pub const INFINITY: i16 = 0x7ffe;

/// The attribute of a control that a command is about.
#[derive(Clone, Copy, Debug, PartialEq, Eq, Structural)]
pub enum CtlAttr {
    /// The smallest step of the value.
    Resolution,
    /// The lowest value.
    Minimum,
    /// The highest value.
    Maximum,
    /// The value after reset.
    Default,
    /// The shortest time of a move.
    Duration,
    /// The value now.
    Current,
    /// A move of the value over a time.
    Move,
    /// A change of the value by steps.
    Delta,
    /// A code that the protocol does not name.
    Reserved(u8),
}

impl CtlAttr {
    /// The code of the attribute.
    pub open spec fn spec_byte(&self) -> u8 {
        match self {
            CtlAttr::Resolution => 0x01,
            CtlAttr::Minimum => 0x02,
            CtlAttr::Maximum => 0x03,
            CtlAttr::Default => 0x04,
            CtlAttr::Duration => 0x08,
            CtlAttr::Current => CTL_ATTR_CURRENT,
            CtlAttr::Move => 0x18,
            CtlAttr::Delta => 0x19,
            CtlAttr::Reserved(code) => *code,
        }
    }

    #[verifier::when_used_as_spec(spec_byte)]
    pub fn byte(&self) -> (b: u8)
        ensures
            b == self.spec_byte(),
    {
        match self {
            CtlAttr::Resolution => 0x01,
            CtlAttr::Minimum => 0x02,
            CtlAttr::Maximum => 0x03,
            CtlAttr::Default => 0x04,
            CtlAttr::Duration => 0x08,
            CtlAttr::Current => CTL_ATTR_CURRENT,
            CtlAttr::Move => 0x18,
            CtlAttr::Delta => 0x19,
            CtlAttr::Reserved(code) => *code,
        }
    }
}

/// The channels of a feature function block that a command addresses.
#[derive(Clone, Copy, Debug, PartialEq, Eq, Structural)]
pub enum AudioCh {
    /// All channels at once.
    All,
    /// One channel, counted from zero.
    Each(u8),
}

impl AudioCh {
    /// Whether the channel has an encoding: the byte holds the channel's
    /// number plus one.
    pub open spec fn spec_encodable(&self) -> bool {
        match self {
            AudioCh::All => true,
            AudioCh::Each(ch) => *ch < 0xff,
        }
    }

    #[verifier::when_used_as_spec(spec_encodable)]
    pub fn encodable(&self) -> (encodable: bool)
        ensures
            encodable == self.spec_encodable(),
    {
        match self {
            AudioCh::All => true,
            AudioCh::Each(ch) => *ch < 0xff,
        }
    }

    /// The byte that addresses the channel: zero for all channels, else the
    /// channel's number plus one.
    pub open spec fn spec_byte(&self) -> u8
        recommends
            self.spec_encodable(),
    {
        match self {
            AudioCh::All => 0x00,
            AudioCh::Each(ch) => (*ch + 1) as u8,
        }
    }

    #[verifier::when_used_as_spec(spec_byte)]
    pub fn byte(&self) -> (b: u8)
        requires
            self.spec_encodable(),
        ensures
            b == self.spec_byte(),
    {
        match self {
            AudioCh::All => 0x00,
            AudioCh::Each(ch) => *ch + 1,
        }
    }
}

/// One control of a feature function block with its value for the
/// addressed channel.
#[derive(Clone, Copy, Debug, PartialEq, Eq, Structural)]
pub enum FeatureCtl {
    Mute(bool),
    Volume(i16),
    LrBalance(i16),
}

impl FeatureCtl {
    /// The control selector on the wire.
    pub open spec fn spec_selector(&self) -> u8 {
        match self {
            FeatureCtl::Mute(_) => FEATURE_MUTE,
            FeatureCtl::Volume(_) => FEATURE_VOLUME,
            FeatureCtl::LrBalance(_) => FEATURE_LR_BALANCE,
        }
    }

    #[verifier::when_used_as_spec(spec_selector)]
    pub fn selector(&self) -> (selector: u8)
        ensures
            selector == self.spec_selector(),
    {
        match self {
            FeatureCtl::Mute(_) => FEATURE_MUTE,
            FeatureCtl::Volume(_) => FEATURE_VOLUME,
            FeatureCtl::LrBalance(_) => FEATURE_LR_BALANCE,
        }
    }

    /// The control data on the wire.
    pub open spec fn data(&self) -> Seq<u8> {
        match self {
            FeatureCtl::Mute(mute) => seq![if *mute { FEATURE_TRUE } else { FEATURE_FALSE }],
            FeatureCtl::Volume(vol) => be_bytes(*vol),
            FeatureCtl::LrBalance(balance) => be_bytes(*balance),
        }
    }
}

/// The two bytes of a signed 16 bit value in two's complement, most
/// significant byte first.
pub open spec fn be_bytes(val: i16) -> Seq<u8> {
    let unsigned: int = if val >= 0 { val as int } else { val + 0x1_0000 };
    seq![(unsigned / 0x100) as u8, (unsigned % 0x100) as u8]
}

/// The signed 16 bit value whose two's complement is the two bytes, most
/// significant byte first.
pub open spec fn be_value(hi: u8, lo: u8) -> i16 {
    let unsigned: int = hi * 0x100 + lo;
    if unsigned < 0x8000 {
        unsigned as i16
    } else {
        (unsigned - 0x1_0000) as i16
    }
}

/// The values that pairs of bytes hold; a last byte without partner is
/// left out.
pub open spec fn be_values(data: Seq<u8>) -> Seq<i16> {
    Seq::new((data.len() / 2) as nat, |i: int| be_value(data[2 * i], data[2 * i + 1]))
}

/// The switches that bytes hold.
pub open spec fn switch_values(data: Seq<u8>) -> Seq<bool> {
    Seq::new(data.len(), |i: int| data[i] == FEATURE_TRUE)
}

/// Decoding undoes encoding.
pub proof fn be_bytes_round_trip(val: i16)
    ensures
        be_bytes(val).len() == 2,
        be_value(be_bytes(val)[0], be_bytes(val)[1]) == val,
{
}

/// The command of a feature function block: which block, which channel,
/// which control. In a control command the control holds the value to set;
/// after a response was read it holds the value that the device reported.
#[derive(Clone, Copy, Debug, PartialEq, Eq, Structural)]
pub struct AudioFeature {
    pub func_blk_id: u8,
    pub ctl_attr: CtlAttr,
    pub audio_ch: AudioCh,
    pub ctl: FeatureCtl,
}

/// The command of a selector function block: which block, and the input
/// plug to select. After a response was read the plug is the one that the
/// device reported.
#[derive(Clone, Copy, Debug, PartialEq, Eq, Structural)]
pub struct AudioSelector {
    pub func_blk_id: u8,
    pub ctl_attr: CtlAttr,
    pub input_plug_id: u8,
}

/// Input plug of a selector in a status command.
pub const INPUT_PLUG_UNSET: u8 = 0xff;

/// Operands of a function block command: block type, block, attribute, the
/// length of the selector bytes counting itself, the selector bytes, the
/// control selector and, where there is control data, its length and the
/// data.
pub open spec fn func_blk_operands(
    func_blk_type: u8,
    func_blk_id: u8,
    ctl_attr: u8,
    selector_data: Seq<u8>,
    ctl_selector: u8,
    ctl_data: Seq<u8>,
) -> Seq<u8> {
    seq![func_blk_type, func_blk_id, ctl_attr, (1 + selector_data.len()) as u8]
        + selector_data + seq![ctl_selector] + if ctl_data.len() > 0 {
        seq![ctl_data.len() as u8] + ctl_data
    } else {
        Seq::<u8>::empty()
    }
}

impl AudioFeature {
    /// The command for a control of a channel of a function block.
    pub fn new(func_blk_id: u8, ctl_attr: CtlAttr, audio_ch: AudioCh, ctl: FeatureCtl) -> (op:
        AudioFeature)
        ensures
            op == (AudioFeature { func_blk_id, ctl_attr, audio_ch, ctl }),
    {
        AudioFeature { func_blk_id, ctl_attr, audio_ch, ctl }
    }

    /// The operands of the command, alike for control and status.
    pub open spec fn operands(&self) -> Seq<u8>
        recommends
            self.audio_ch.spec_encodable(),
    {
        func_blk_operands(
            FUNC_BLK_FEATURE,
            self.func_blk_id,
            self.ctl_attr.spec_byte(),
            seq![self.audio_ch.spec_byte()],
            self.ctl.spec_selector(),
            self.ctl.data(),
        )
    }
}

impl AudioSelector {
    /// The command for the input of a selector function block.
    pub fn new(func_blk_id: u8, ctl_attr: CtlAttr, input_plug_id: u8) -> (op: AudioSelector)
        ensures
            op == (AudioSelector { func_blk_id, ctl_attr, input_plug_id }),
    {
        AudioSelector { func_blk_id, ctl_attr, input_plug_id }
    }

    /// The operands of the command, alike for control and status.
    pub open spec fn operands(&self) -> Seq<u8> {
        func_blk_operands(
            FUNC_BLK_SELECTOR,
            self.func_blk_id,
            self.ctl_attr.spec_byte(),
            seq![self.input_plug_id],
            SELECTOR_CONTROL,
            Seq::<u8>::empty(),
        )
    }
}

/// Where the control of a function block response begins: behind the four
/// leading bytes and the selector bytes, whose count the fourth byte holds
/// (counting itself).
pub open spec fn ctl_offset(operands: Seq<u8>) -> int
    recommends
        operands.len() >= 4,
{
    3 + operands[3]
}

/// The control data of a function block response: the bytes behind the
/// control selector and the length byte. Where the length byte is missing
/// or promises more than the response holds, there is no control data.
pub open spec fn ctl_data(operands: Seq<u8>) -> Seq<u8>
    recommends
        operands.len() > ctl_offset(operands),
{
    let at = ctl_offset(operands);
    if operands.len() >= at + 2 && operands.len() >= at + 2 + operands[at + 1] {
        operands.subrange(at + 2, at + 2 + operands[at + 1])
    } else {
        Seq::<u8>::empty()
    }
}

/// Why the frame of a function block response is turned down, if it is:
/// the checks on the leading bytes in their order.
pub open spec fn func_blk_fault(
    func_blk_type: u8,
    func_blk_id: u8,
    ctl_attr: u8,
    operands: Seq<u8>,
) -> Option<AvcRespParseError> {
    if operands.len() < 4 {
        Some(AvcRespParseError::TooShortResp(4))
    } else if operands[0] != func_blk_type {
        Some(AvcRespParseError::UnexpectedOperands(0))
    } else if operands[1] != func_blk_id {
        Some(AvcRespParseError::UnexpectedOperands(1))
    } else if operands[2] != ctl_attr {
        Some(AvcRespParseError::UnexpectedOperands(2))
    } else if operands.len() < ctl_offset(operands) {
        Some(AvcRespParseError::TooShortResp((3 + operands[3]) as usize))
    } else if operands[3] < 1 {
        Some(AvcRespParseError::UnexpectedOperands(3))
    } else if operands.len() == ctl_offset(operands) {
        Some(AvcRespParseError::TooShortResp((4 + operands[3]) as usize))
    } else {
        None
    }
}

/// Why the response to a selector command is turned down, if it is.
pub open spec fn selector_fault(func_blk_id: u8, ctl_attr: u8, operands: Seq<u8>) -> Option<
    AvcRespParseError,
> {
    if func_blk_fault(FUNC_BLK_SELECTOR, func_blk_id, ctl_attr, operands).is_some() {
        func_blk_fault(FUNC_BLK_SELECTOR, func_blk_id, ctl_attr, operands)
    } else if operands[ctl_offset(operands)] != SELECTOR_CONTROL {
        Some(AvcRespParseError::UnexpectedOperands(5))
    } else if ctl_data(operands).len() > 0 {
        Some(AvcRespParseError::UnexpectedOperands(7))
    } else if operands[3] < 2 {
        Some(AvcRespParseError::UnexpectedOperands(3))
    } else {
        None
    }
}

/// Why the response to a feature command for `audio_ch` and the control of
/// `ctl` is turned down, if it is. A response for another control than the
/// one asked for is turned down, and so is one without a value.
pub open spec fn feature_fault(
    func_blk_id: u8,
    ctl_attr: u8,
    audio_ch: AudioCh,
    ctl: FeatureCtl,
    operands: Seq<u8>,
) -> Option<AvcRespParseError> {
    if func_blk_fault(FUNC_BLK_FEATURE, func_blk_id, ctl_attr, operands).is_some() {
        func_blk_fault(FUNC_BLK_FEATURE, func_blk_id, ctl_attr, operands)
    } else if operands[3] < 2 {
        Some(AvcRespParseError::UnexpectedOperands(3))
    } else if !audio_ch.spec_encodable() || operands[4] != audio_ch.spec_byte() {
        Some(AvcRespParseError::UnexpectedOperands(7))
    } else if operands[ctl_offset(operands)] != ctl.spec_selector() {
        Some(AvcRespParseError::UnexpectedOperands(5))
    } else if ctl_data(operands).len() < ctl.data().len() {
        Some(AvcRespParseError::TooShortResp((ctl_offset(operands) + 2 + ctl.data().len()) as usize))
    } else if ctl is LrBalance && ctl_data(operands).len() > 2 {
        Some(AvcRespParseError::UnexpectedOperands((ctl_offset(operands) + 1) as usize))
    } else {
        None
    }
}

/// The control that a feature response reports: for volume and mute the
/// value of the first channel in the control data.
pub open spec fn feature_reported(ctl: FeatureCtl, operands: Seq<u8>) -> FeatureCtl
    recommends
        operands.len() > ctl_offset(operands),
        ctl_data(operands).len() >= ctl.data().len(),
{
    let data = ctl_data(operands);
    match ctl {
        FeatureCtl::Mute(_) => FeatureCtl::Mute(data[0] == FEATURE_TRUE),
        FeatureCtl::Volume(_) => FeatureCtl::Volume(be_value(data[0], data[1])),
        FeatureCtl::LrBalance(_) => FeatureCtl::LrBalance(be_value(data[0], data[1])),
    }
}

/// The values in the control data of a feature response, for every channel
/// that it reports.
#[derive(Debug)]
pub enum FeatureValues {
    Mute(Vec<bool>),
    Volume(Vec<i16>),
    LrBalance(i16),
}

/// What `FeatureValues` holds.
pub enum FeatureValuesView {
    Mute(Seq<bool>),
    Volume(Seq<i16>),
    LrBalance(i16),
}

impl View for FeatureValues {
    type V = FeatureValuesView;

    open spec fn view(&self) -> FeatureValuesView {
        match self {
            FeatureValues::Mute(data) => FeatureValuesView::Mute(data@),
            FeatureValues::Volume(data) => FeatureValuesView::Volume(data@),
            FeatureValues::LrBalance(balance) => FeatureValuesView::LrBalance(*balance),
        }
    }
}

/// The values that a feature response holds for the control of `ctl`.
pub open spec fn feature_values(ctl: FeatureCtl, operands: Seq<u8>) -> FeatureValuesView
    recommends
        operands.len() > ctl_offset(operands),
        ctl is LrBalance ==> ctl_data(operands).len() == 2,
{
    let data = ctl_data(operands);
    match ctl {
        FeatureCtl::Mute(_) => FeatureValuesView::Mute(switch_values(data)),
        FeatureCtl::Volume(_) => FeatureValuesView::Volume(be_values(data)),
        FeatureCtl::LrBalance(_) => FeatureValuesView::LrBalance(be_value(data[0], data[1])),
    }
}

/// `AvcStatus::build_operands` of ta1394_avc_audio's `AudioFeature`, for the
/// attribute with the code `attr` and a control with one value, addressed
/// to an audio subunit: the bytes are those of `AudioFeature::operands`.
/// The channel must have an encoding, since the outside code adds one to
/// its number.
#[verifier::external_body]
fn feature_status_operands(op: &AudioFeature, attr: u8) -> (operands: Vec<u8>)
    requires
        op.audio_ch.spec_encodable(),
        attr == op.ctl_attr.spec_byte(),
    ensures
        operands@ == op.operands(),
{
    let ch = match op.audio_ch {
        AudioCh::All => ta1394_avc_audio::AudioCh::All,
        AudioCh::Each(ch) => ta1394_avc_audio::AudioCh::Each(ch),
    };
    let ctl = match op.ctl {
        FeatureCtl::Mute(mute) => ta1394_avc_audio::FeatureCtl::Mute(vec![mute]),
        FeatureCtl::Volume(vol) => ta1394_avc_audio::FeatureCtl::Volume(vec![vol]),
        FeatureCtl::LrBalance(balance) => ta1394_avc_audio::FeatureCtl::LrBalance(balance),
    };
    let attr = ta1394_avc_audio::CtlAttr::from(attr);
    let mut feature = ta1394_avc_audio::AudioFeature::new(op.func_blk_id, attr, ch, ctl);
    let mut operands = Vec::new();
    let addr = ta1394_avc_audio::AUDIO_SUBUNIT_0_ADDR;
    let _ = ta1394_avc_general::AvcStatus::build_operands(&mut feature, &addr, &mut operands);
    operands
}

/// `AvcControl::build_operands` of ta1394_avc_audio's `AudioFeature`, under
/// the same conditions and with the same bytes as for a status command.
#[verifier::external_body]
fn feature_control_operands(op: &AudioFeature, attr: u8) -> (operands: Vec<u8>)
    requires
        op.audio_ch.spec_encodable(),
        attr == op.ctl_attr.spec_byte(),
    ensures
        operands@ == op.operands(),
{
    let ch = match op.audio_ch {
        AudioCh::All => ta1394_avc_audio::AudioCh::All,
        AudioCh::Each(ch) => ta1394_avc_audio::AudioCh::Each(ch),
    };
    let ctl = match op.ctl {
        FeatureCtl::Mute(mute) => ta1394_avc_audio::FeatureCtl::Mute(vec![mute]),
        FeatureCtl::Volume(vol) => ta1394_avc_audio::FeatureCtl::Volume(vec![vol]),
        FeatureCtl::LrBalance(balance) => ta1394_avc_audio::FeatureCtl::LrBalance(balance),
    };
    let attr = ta1394_avc_audio::CtlAttr::from(attr);
    let mut feature = ta1394_avc_audio::AudioFeature::new(op.func_blk_id, attr, ch, ctl);
    let mut operands = Vec::new();
    let addr = ta1394_avc_audio::AUDIO_SUBUNIT_0_ADDR;
    let _ = ta1394_avc_general::AvcControl::build_operands(&mut feature, &addr, &mut operands);
    operands
}

/// `AvcStatus::parse_operands` of ta1394_avc_audio's `AudioFeature`. On
/// operands that `feature_fault` lets pass for the block, channel and
/// control of `op`, the outside code accepts the response and decodes the
/// control data as `feature_values` says; on other operands it may fail
/// or panic, so they are left out.
#[verifier::external_body]
fn feature_status_values(op: &AudioFeature, attr: u8, operands: &[u8]) -> (values: Option<
    FeatureValues,
>)
    requires
        op.audio_ch.spec_encodable(),
        attr == op.ctl_attr.spec_byte(),
        feature_fault(op.func_blk_id, attr, op.audio_ch, op.ctl, operands@).is_none(),
    ensures
        values is Some,
        values->0@ == feature_values(op.ctl, operands@),
{
    let ch = match op.audio_ch {
        AudioCh::All => ta1394_avc_audio::AudioCh::All,
        AudioCh::Each(ch) => ta1394_avc_audio::AudioCh::Each(ch),
    };
    let (attr, ctl) = (ta1394_avc_audio::CtlAttr::from(attr), ta1394_avc_audio::FeatureCtl::Mute(Vec::new()));
    let mut feature = ta1394_avc_audio::AudioFeature::new(op.func_blk_id, attr, ch, ctl);
    let addr = ta1394_avc_audio::AUDIO_SUBUNIT_0_ADDR;
    ta1394_avc_general::AvcStatus::parse_operands(&mut feature, &addr, operands).ok()?;
    match feature.ctl {
        ta1394_avc_audio::FeatureCtl::Mute(data) => Some(FeatureValues::Mute(data)),
        ta1394_avc_audio::FeatureCtl::Volume(data) => Some(FeatureValues::Volume(data)),
        ta1394_avc_audio::FeatureCtl::LrBalance(balance) => Some(FeatureValues::LrBalance(balance)),
        _ => None,
    }
}

/// `AvcControl::parse_operands` of ta1394_avc_audio's `AudioFeature`, which
/// reads the response to a control command as that to a status command is
/// read.
#[verifier::external_body]
fn feature_control_values(op: &AudioFeature, attr: u8, operands: &[u8]) -> (values: Option<
    FeatureValues,
>)
    requires
        op.audio_ch.spec_encodable(),
        attr == op.ctl_attr.spec_byte(),
        feature_fault(op.func_blk_id, attr, op.audio_ch, op.ctl, operands@).is_none(),
    ensures
        values is Some,
        values->0@ == feature_values(op.ctl, operands@),
{
    let ch = match op.audio_ch {
        AudioCh::All => ta1394_avc_audio::AudioCh::All,
        AudioCh::Each(ch) => ta1394_avc_audio::AudioCh::Each(ch),
    };
    let (attr, ctl) = (ta1394_avc_audio::CtlAttr::from(attr), ta1394_avc_audio::FeatureCtl::Mute(Vec::new()));
    let mut feature = ta1394_avc_audio::AudioFeature::new(op.func_blk_id, attr, ch, ctl);
    let addr = ta1394_avc_audio::AUDIO_SUBUNIT_0_ADDR;
    ta1394_avc_general::AvcControl::parse_operands(&mut feature, &addr, operands).ok()?;
    match feature.ctl {
        ta1394_avc_audio::FeatureCtl::Mute(data) => Some(FeatureValues::Mute(data)),
        ta1394_avc_audio::FeatureCtl::Volume(data) => Some(FeatureValues::Volume(data)),
        ta1394_avc_audio::FeatureCtl::LrBalance(balance) => Some(FeatureValues::LrBalance(balance)),
        _ => None,
    }
}

/// `AvcStatus::build_operands` of ta1394_avc_audio's `AudioSelector`, for
/// the attribute with the code `attr`, addressed to an audio subunit: the
/// bytes are those of `AudioSelector::operands`.
#[verifier::external_body]
fn selector_status_operands(op: &AudioSelector, attr: u8) -> (operands: Vec<u8>)
    requires
        attr == op.ctl_attr.spec_byte(),
    ensures
        operands@ == op.operands(),
{
    let attr = ta1394_avc_audio::CtlAttr::from(attr);
    let mut selector = ta1394_avc_audio::AudioSelector::new(op.func_blk_id, attr, op.input_plug_id);
    let mut operands = Vec::new();
    let addr = ta1394_avc_audio::AUDIO_SUBUNIT_0_ADDR;
    let _ = ta1394_avc_general::AvcStatus::build_operands(&mut selector, &addr, &mut operands);
    operands
}

/// `AvcControl::build_operands` of ta1394_avc_audio's `AudioSelector`, under
/// the same conditions and with the same bytes as for a status command.
#[verifier::external_body]
fn selector_control_operands(op: &AudioSelector, attr: u8) -> (operands: Vec<u8>)
    requires
        attr == op.ctl_attr.spec_byte(),
    ensures
        operands@ == op.operands(),
{
    let attr = ta1394_avc_audio::CtlAttr::from(attr);
    let mut selector = ta1394_avc_audio::AudioSelector::new(op.func_blk_id, attr, op.input_plug_id);
    let mut operands = Vec::new();
    let addr = ta1394_avc_audio::AUDIO_SUBUNIT_0_ADDR;
    let _ = ta1394_avc_general::AvcControl::build_operands(&mut selector, &addr, &mut operands);
    operands
}

/// `AvcStatus::parse_operands` of ta1394_avc_audio's `AudioSelector`. On
/// operands that `selector_fault` lets pass for the block, the outside code
/// accepts the response and reports the first selector byte as the input
/// plug; on other operands it may fail or panic, so they are left out.
#[verifier::external_body]
fn selector_status_plug(func_blk_id: u8, attr: u8, operands: &[u8]) -> (plug: Option<u8>)
    requires
        selector_fault(func_blk_id, attr, operands@).is_none(),
    ensures
        plug == Some(operands@[4]),
{
    let attr = ta1394_avc_audio::CtlAttr::from(attr);
    let mut selector = ta1394_avc_audio::AudioSelector::new(func_blk_id, attr, INPUT_PLUG_UNSET);
    let addr = ta1394_avc_audio::AUDIO_SUBUNIT_0_ADDR;
    ta1394_avc_general::AvcStatus::parse_operands(&mut selector, &addr, operands).ok()?;
    Some(selector.input_plug_id)
}

/// `AvcControl::parse_operands` of ta1394_avc_audio's `AudioSelector`, which
/// reads the response to a control command as that to a status command is
/// read.
#[verifier::external_body]
fn selector_control_plug(func_blk_id: u8, attr: u8, operands: &[u8]) -> (plug: Option<u8>)
    requires
        selector_fault(func_blk_id, attr, operands@).is_none(),
    ensures
        plug == Some(operands@[4]),
{
    let attr = ta1394_avc_audio::CtlAttr::from(attr);
    let mut selector = ta1394_avc_audio::AudioSelector::new(func_blk_id, attr, INPUT_PLUG_UNSET);
    let addr = ta1394_avc_audio::AUDIO_SUBUNIT_0_ADDR;
    ta1394_avc_general::AvcControl::parse_operands(&mut selector, &addr, operands).ok()?;
    Some(selector.input_plug_id)
}

/// Checks the leading bytes of a function block response and finds where
/// its control begins.
fn func_blk_check(func_blk_type: u8, func_blk_id: u8, ctl_attr: u8, operands: &[u8]) -> (checked:
    Result<usize, AvcRespParseError>)
    ensures
        match checked {
            Ok(at) => func_blk_fault(func_blk_type, func_blk_id, ctl_attr, operands@).is_none()
                && at == ctl_offset(operands@),
            Err(e) => func_blk_fault(func_blk_type, func_blk_id, ctl_attr, operands@) == Some(e),
        },
{
    if operands.len() < 4 {
        return Err(AvcRespParseError::TooShortResp(4));
    }
    if operands[0] != func_blk_type {
        return Err(AvcRespParseError::UnexpectedOperands(0));
    }
    if operands[1] != func_blk_id {
        return Err(AvcRespParseError::UnexpectedOperands(1));
    }
    if operands[2] != ctl_attr {
        return Err(AvcRespParseError::UnexpectedOperands(2));
    }
    let selector_len: usize = operands[3] as usize;
    if operands.len() < 3 + selector_len {
        return Err(AvcRespParseError::TooShortResp(3 + selector_len));
    }
    if selector_len < 1 {
        return Err(AvcRespParseError::UnexpectedOperands(3));
    }
    if operands.len() == 3 + selector_len {
        return Err(AvcRespParseError::TooShortResp(4 + selector_len));
    }
    Ok(3 + selector_len)
}

/// The number of bytes of control data in a function block response whose
/// control begins at `at`.
fn ctl_data_len(operands: &[u8], at: usize) -> (len: usize)
    requires
        operands@.len() >= 4,
        at == ctl_offset(operands@),
        at < operands@.len(),
    ensures
        len == ctl_data(operands@).len(),
        len > 0 ==> at + 2 + len <= operands@.len() && ctl_data(operands@) == operands@.subrange(
            at + 2,
            at + 2 + len,
        ),
{
    if operands.len() - at >= 2 {
        let promised: usize = operands[at + 1] as usize;
        if operands.len() - at - 2 >= promised {
            promised
        } else {
            0
        }
    } else {
        0
    }
}

impl AudioSelector {
    /// The operands of the command for `addr`, or the reason why there are
    /// none: function blocks exist in audio subunits only.
    pub open spec fn built(&self, addr: AvcAddr) -> Result<Seq<u8>, AvcCmdBuildError> {
        if !addr.spec_is_audio() {
            Err(AvcCmdBuildError::InvalidAddress)
        } else {
            Ok(self.operands())
        }
    }

    /// The command after the response with `operands` was read, or the
    /// reason why the response is turned down.
    pub open spec fn parsed(&self, operands: Seq<u8>) -> Result<AudioSelector, AvcRespParseError> {
        match selector_fault(self.func_blk_id, self.ctl_attr.spec_byte(), operands) {
            Some(e) => Err(e),
            None => Ok(
                AudioSelector {
                    func_blk_id: self.func_blk_id,
                    ctl_attr: self.ctl_attr,
                    input_plug_id: operands[4],
                },
            ),
        }
    }

    /// Serialises the command.
    pub fn build_operands(&self, addr: &AvcAddr, ctype: AvcCmdType) -> (operands: Result<
        Vec<u8>,
        AvcCmdBuildError,
    >)
        ensures
            match self.built(*addr) {
                Ok(bytes) => operands is Ok && operands->Ok_0@ == bytes,
                Err(e) => operands == Err::<Vec<u8>, AvcCmdBuildError>(e),
            },
    {
        if !addr.is_audio() {
            return Err(AvcCmdBuildError::InvalidAddress);
        }
        match ctype {
            AvcCmdType::Control => Ok(selector_control_operands(self, self.ctl_attr.byte())),
            AvcCmdType::Status => Ok(selector_status_operands(self, self.ctl_attr.byte())),
        }
    }

    /// Reads the operands of a response into the command.
    pub fn parse_operands(&mut self, ctype: AvcCmdType, operands: &[u8]) -> (parsed: Result<
        (),
        AvcRespParseError,
    >)
        ensures
            match old(self).parsed(operands@) {
                Ok(op) => parsed is Ok && *final(self) == op,
                Err(e) => parsed == Err::<(), AvcRespParseError>(e) && *final(self) == *old(self),
            },
    {
        let attr = self.ctl_attr.byte();
        let at = func_blk_check(FUNC_BLK_SELECTOR, self.func_blk_id, attr, operands)?;
        if operands[at] != SELECTOR_CONTROL {
            return Err(AvcRespParseError::UnexpectedOperands(5));
        }
        if ctl_data_len(operands, at) > 0 {
            return Err(AvcRespParseError::UnexpectedOperands(7));
        }
        if operands[3] < 2 {
            return Err(AvcRespParseError::UnexpectedOperands(3));
        }
        let plug = match ctype {
            AvcCmdType::Control => selector_control_plug(self.func_blk_id, attr, operands),
            AvcCmdType::Status => selector_status_plug(self.func_blk_id, attr, operands),
        };
        match plug {
            Some(input_plug_id) => {
                self.input_plug_id = input_plug_id;
                Ok(())
            },
            None => Err(AvcRespParseError::UnexpectedOperands(4)),
        }
    }
}

impl AudioFeature {
    /// The operands of the command for `addr`, or the reason why there are
    /// none: function blocks exist in audio subunits only, and the channel
    /// needs an encoding.
    pub open spec fn built(&self, addr: AvcAddr) -> Result<Seq<u8>, AvcCmdBuildError> {
        if !addr.spec_is_audio() {
            Err(AvcCmdBuildError::InvalidAddress)
        } else if !self.audio_ch.spec_encodable() {
            Err(AvcCmdBuildError::InvalidOperands)
        } else {
            Ok(self.operands())
        }
    }

    /// The command after the response with `operands` was read, or the
    /// reason why the response is turned down.
    pub open spec fn parsed(&self, operands: Seq<u8>) -> Result<AudioFeature, AvcRespParseError> {
        match feature_fault(
            self.func_blk_id,
            self.ctl_attr.spec_byte(),
            self.audio_ch,
            self.ctl,
            operands,
        ) {
            Some(e) => Err(e),
            None => Ok(
                AudioFeature {
                    func_blk_id: self.func_blk_id,
                    ctl_attr: self.ctl_attr,
                    audio_ch: self.audio_ch,
                    ctl: feature_reported(self.ctl, operands),
                },
            ),
        }
    }

    /// Serialises the command.
    pub fn build_operands(&self, addr: &AvcAddr, ctype: AvcCmdType) -> (operands: Result<
        Vec<u8>,
        AvcCmdBuildError,
    >)
        ensures
            match self.built(*addr) {
                Ok(bytes) => operands is Ok && operands->Ok_0@ == bytes,
                Err(e) => operands == Err::<Vec<u8>, AvcCmdBuildError>(e),
            },
    {
        if !addr.is_audio() {
            return Err(AvcCmdBuildError::InvalidAddress);
        }
        if !self.audio_ch.encodable() {
            return Err(AvcCmdBuildError::InvalidOperands);
        }
        match ctype {
            AvcCmdType::Control => Ok(feature_control_operands(self, self.ctl_attr.byte())),
            AvcCmdType::Status => Ok(feature_status_operands(self, self.ctl_attr.byte())),
        }
    }

    /// Reads the operands of a response into the command.
    pub fn parse_operands(&mut self, ctype: AvcCmdType, operands: &[u8]) -> (parsed: Result<
        (),
        AvcRespParseError,
    >)
        ensures
            match old(self).parsed(operands@) {
                Ok(op) => parsed is Ok && *final(self) == op,
                Err(e) => parsed == Err::<(), AvcRespParseError>(e) && *final(self) == *old(self),
            },
    {
        let attr = self.ctl_attr.byte();
        let at = func_blk_check(FUNC_BLK_FEATURE, self.func_blk_id, attr, operands)?;
        if operands[3] < 2 {
            return Err(AvcRespParseError::UnexpectedOperands(3));
        }
        if !self.audio_ch.encodable() || operands[4] != self.audio_ch.byte() {
            return Err(AvcRespParseError::UnexpectedOperands(7));
        }
        if operands[at] != self.ctl.selector() {
            return Err(AvcRespParseError::UnexpectedOperands(5));
        }
        let needed: usize = match self.ctl {
            FeatureCtl::Mute(_) => 1,
            FeatureCtl::Volume(_) => 2,
            FeatureCtl::LrBalance(_) => 2,
        };
        let len = ctl_data_len(operands, at);
        if len < needed {
            return Err(AvcRespParseError::TooShortResp(at + 2 + needed));
        }
        if len > 2 {
            if let FeatureCtl::LrBalance(_) = self.ctl {
                return Err(AvcRespParseError::UnexpectedOperands(at + 1));
            }
        }
        let values = match ctype {
            AvcCmdType::Control => feature_control_values(self, attr, operands),
            AvcCmdType::Status => feature_status_values(self, attr, operands),
        };
        match values {
            Some(FeatureValues::Mute(data)) => {
                if data.len() > 0 {
                    self.ctl = FeatureCtl::Mute(data[0]);
                }
                Ok(())
            },
            Some(FeatureValues::Volume(data)) => {
                if data.len() > 0 {
                    self.ctl = FeatureCtl::Volume(data[0]);
                }
                Ok(())
            },
            Some(FeatureValues::LrBalance(balance)) => {
                self.ctl = FeatureCtl::LrBalance(balance);
                Ok(())
            },
            None => Err(AvcRespParseError::UnexpectedOperands(at)),
        }
    }
}

} // verus!
