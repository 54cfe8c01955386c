//! Operands of the plug signal format commands, which set the format of the
//! stream at an isochronous plug of the unit.

use vstd::prelude::*;
use crate::error::{AvcCmdBuildError, AvcRespParseError};
use crate::frame::AvcAddr;

verus! {

/// Opcode of the input plug signal format command.
pub const INPUT_PLUG_SIGNAL_FORMAT_OPCODE: u8 = 0x19;

/// Opcode of the output plug signal format command.
pub const OUTPUT_PLUG_SIGNAL_FORMAT_OPCODE: u8 = 0x18;

/// Format of streams of audio and music data.
pub const FMT_IS_AMDTP: u8 = 0x90;

/// The code of a sampling frequency in the format dependent field of audio
/// and music data: the seven frequencies from 32000 to 192000 in rising
/// order, and seven for any other.
pub open spec fn sfc_code(freq: u32) -> u8 {
    if freq == 32000 {
        0
    } else if freq == 44100 {
        1
    } else if freq == 48000 {
        2
    } else if freq == 88200 {
        3
    } else if freq == 96000 {
        4
    } else if freq == 176400 {
        5
    } else if freq == 192000 {
        6
    } else {
        7
    }
}

/// The format dependent field for AM824 data at `freq` without rate
/// control by command: the code of the frequency, then two bytes of ones.
pub open spec fn am824_fdf(freq: u32) -> Seq<u8> {
    seq![sfc_code(freq), 0xff, 0xff]
}

/// `AmdtpFdf::new` of ta1394_avc_audio for AM824 events without rate
/// control by command, turned into its three bytes: event type and rate
/// flag are zero, so the first byte is the code of the frequency; the
/// other two are 0xff.
#[verifier::external_body]
fn amdtp_fdf_bytes(freq: u32) -> (fdf: [u8; 3])
    ensures
        fdf@ == am824_fdf(freq),
{
    let event = ta1394_avc_audio::amdtp::AmdtpEventType::Am824;
    ta1394_avc_audio::amdtp::AmdtpFdf::new(event, false, freq).into()
}

/// What both plug signal format commands carry: the plug, the format and
/// the format dependent field.
#[derive(Clone, Copy, Debug)]
pub struct PlugSignalFormat {
    pub plug_id: u8,
    pub fmt: u8,
    pub fdf: [u8; 3],
}

/// What `PlugSignalFormat` holds.
pub struct PlugSignalFormatView {
    pub plug_id: u8,
    pub fmt: u8,
    pub fdf: Seq<u8>,
}

impl View for PlugSignalFormat {
    type V = PlugSignalFormatView;

    open spec fn view(&self) -> PlugSignalFormatView {
        PlugSignalFormatView { plug_id: self.plug_id, fmt: self.fmt, fdf: self.fdf@ }
    }
}

impl PlugSignalFormatView {
    /// The operands of a control command.
    pub open spec fn operands(self) -> Seq<u8> {
        seq![self.plug_id, self.fmt] + self.fdf
    }

    /// The operands of a control command for `addr`, or the reason why
    /// there are none: the plugs belong to the unit.
    pub open spec fn built(self, addr: AvcAddr) -> Result<Seq<u8>, AvcCmdBuildError> {
        if addr != AvcAddr::Unit {
            Err(AvcCmdBuildError::InvalidAddress)
        } else {
            Ok(self.operands())
        }
    }
}

/// What the first five bytes of a response to a plug signal format command
/// report.
pub open spec fn plug_signal_reported(operands: Seq<u8>) -> PlugSignalFormatView
    recommends
        operands.len() > 4,
{
    PlugSignalFormatView { plug_id: operands[0], fmt: operands[1], fdf: operands.subrange(2, 5) }
}

/// What a response to a plug signal format command reports, or the reason
/// why it is turned down: five bytes are needed.
pub open spec fn plug_signal_parsed(operands: Seq<u8>) -> Result<
    PlugSignalFormatView,
    AvcRespParseError,
> {
    if operands.len() > 4 {
        Ok(plug_signal_reported(operands))
    } else {
        Err(AvcRespParseError::TooShortResp(4))
    }
}

impl PlugSignalFormat {
    /// The signal format of AM824 data at `freq` for the plug.
    pub fn new_am824(plug_id: u8, freq: u32) -> (format: PlugSignalFormat)
        ensures
            format@ == (PlugSignalFormatView { plug_id, fmt: FMT_IS_AMDTP, fdf: am824_fdf(freq) }),
    {
        PlugSignalFormat { plug_id, fmt: FMT_IS_AMDTP, fdf: amdtp_fdf_bytes(freq) }
    }
}

/// `AvcControl::build_operands` of ta1394_avc_general's
/// `InputPlugSignalFormat`, addressed to the unit: the plug, the format and
/// the three bytes of the format dependent field.
#[verifier::external_body]
fn input_plug_control_operands(format: &PlugSignalFormat) -> (operands: Vec<u8>)
    ensures
        operands@ == format@.operands(),
{
    let inner = ta1394_avc_general::general::PlugSignalFormat {
        plug_id: format.plug_id,
        fmt: format.fmt,
        fdf: format.fdf,
    };
    let mut op = ta1394_avc_general::general::InputPlugSignalFormat(inner);
    let mut operands = Vec::new();
    let addr = ta1394_avc_general::AvcAddr::Unit;
    let _ = ta1394_avc_general::AvcControl::build_operands(&mut op, &addr, &mut operands);
    operands
}

/// `AvcControl::build_operands` of ta1394_avc_general's
/// `OutputPlugSignalFormat`, addressed to the unit: the plug, the format
/// and the three bytes of the format dependent field.
#[verifier::external_body]
fn output_plug_control_operands(format: &PlugSignalFormat) -> (operands: Vec<u8>)
    ensures
        operands@ == format@.operands(),
{
    let inner = ta1394_avc_general::general::PlugSignalFormat {
        plug_id: format.plug_id,
        fmt: format.fmt,
        fdf: format.fdf,
    };
    let mut op = ta1394_avc_general::general::OutputPlugSignalFormat(inner);
    let mut operands = Vec::new();
    let addr = ta1394_avc_general::AvcAddr::Unit;
    let _ = ta1394_avc_general::AvcControl::build_operands(&mut op, &addr, &mut operands);
    operands
}

/// `AvcControl::parse_operands` of ta1394_avc_general's
/// `InputPlugSignalFormat`: operands of five bytes or more are accepted,
/// and the first five are the plug, the format and the format dependent
/// field.
#[verifier::external_body]
fn input_plug_control_reported(operands: &[u8]) -> (reported: Option<PlugSignalFormat>)
    requires
        operands@.len() > 4,
    ensures
        reported is Some,
        reported->0@ == plug_signal_reported(operands@),
{
    let mut op = ta1394_avc_general::general::InputPlugSignalFormat::new(0xff);
    let addr = ta1394_avc_general::AvcAddr::Unit;
    ta1394_avc_general::AvcControl::parse_operands(&mut op, &addr, operands).ok()?;
    Some(PlugSignalFormat { plug_id: op.0.plug_id, fmt: op.0.fmt, fdf: op.0.fdf })
}

/// `AvcControl::parse_operands` of ta1394_avc_general's
/// `OutputPlugSignalFormat`: operands of five bytes or more are accepted,
/// and the first five are the plug, the format and the format dependent
/// field.
#[verifier::external_body]
fn output_plug_control_reported(operands: &[u8]) -> (reported: Option<PlugSignalFormat>)
    requires
        operands@.len() > 4,
    ensures
        reported is Some,
        reported->0@ == plug_signal_reported(operands@),
{
    let mut op = ta1394_avc_general::general::OutputPlugSignalFormat::new(0xff);
    let addr = ta1394_avc_general::AvcAddr::Unit;
    ta1394_avc_general::AvcControl::parse_operands(&mut op, &addr, operands).ok()?;
    Some(PlugSignalFormat { plug_id: op.0.plug_id, fmt: op.0.fmt, fdf: op.0.fdf })
}

/// The direction of the stream at a plug, seen from the unit.
#[derive(Clone, Copy, Debug, PartialEq, Eq, Structural)]
pub enum PlugDirection {
    Input,
    Output,
}

impl PlugSignalFormat {
    /// Serialises the control command for the plug of the given direction.
    pub fn build_operands(&self, direction: PlugDirection, addr: &AvcAddr) -> (operands: Result<
        Vec<u8>,
        AvcCmdBuildError,
    >)
        ensures
            match self@.built(*addr) {
                Ok(bytes) => operands is Ok && operands->Ok_0@ == bytes,
                Err(e) => operands == Err::<Vec<u8>, AvcCmdBuildError>(e),
            },
    {
        match addr {
            AvcAddr::Unit => match direction {
                PlugDirection::Input => Ok(input_plug_control_operands(self)),
                PlugDirection::Output => Ok(output_plug_control_operands(self)),
            },
            AvcAddr::Subunit(_) => Err(AvcCmdBuildError::InvalidAddress),
        }
    }

    /// Reads the operands of the response to a control command into the
    /// command.
    pub fn parse_operands(&mut self, direction: PlugDirection, operands: &[u8]) -> (parsed: Result<
        (),
        AvcRespParseError,
    >)
        ensures
            match plug_signal_parsed(operands@) {
                Ok(format) => parsed is Ok && final(self)@ == format,
                Err(e) => parsed == Err::<(), AvcRespParseError>(e) && *final(self) == *old(self),
            },
    {
        if operands.len() <= 4 {
            return Err(AvcRespParseError::TooShortResp(4));
        }
        let reported = match direction {
            PlugDirection::Input => input_plug_control_reported(operands),
            PlugDirection::Output => output_plug_control_reported(operands),
        };
        match reported {
            Some(format) => {
                *self = format;
                Ok(())
            },
            None => Err(AvcRespParseError::TooShortResp(4)),
        }
    }
}

} // verus!
