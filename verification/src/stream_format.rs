//! Operands of the extended stream format command in its form for a single
//! plug, as far as the sampling frequency of a plug of the unit is read
//! from it.

use vstd::prelude::*;
use crate::error::AvcRespParseError;
use crate::plug_signal::PlugDirection;

verus! {

/// Opcode of the extended stream format command.
pub const EXTENDED_STREAM_FORMAT_OPCODE: u8 = 0xbf;

/// Subfunction for the current format of a single plug.
pub const SUBFUNC_SINGLE: u8 = 0xc0;

/// Root of the format hierarchy for audio and music data.
pub const HIER_ROOT_AM: u8 = 0x90;

/// First level of the hierarchy: single AM824 stream.
pub const HIER_LEVEL_1_AM824: u8 = 0x00;

/// First level of the hierarchy: compound AM824 stream.
pub const HIER_LEVEL_1_COMPOUND_AM824: u8 = 0x40;

/// The frequency reported for a code that stands for none.
pub const FREQ_UNKNOWN: u32 = 0xffff_ffff;

impl PlugDirection {
    /// The byte that names the direction.
    pub open spec fn spec_byte(&self) -> u8 {
        match self {
            PlugDirection::Input => 0,
            PlugDirection::Output => 1,
        }
    }

    #[verifier::when_used_as_spec(spec_byte)]
    pub fn byte(&self) -> (b: u8)
        ensures
            b == self.spec_byte(),
    {
        match self {
            PlugDirection::Input => 0,
            PlugDirection::Output => 1,
        }
    }
}

/// The command for an isochronous plug of the unit: the plug, and the
/// sampling frequency of its compound AM824 stream as far as a response
/// told it.
#[derive(Clone, Copy, Debug, PartialEq, Eq, Structural)]
pub struct ExtendedStreamFormatSingle {
    pub direction: PlugDirection,
    pub plug_id: u8,
    /// `None` until a response was read, and where the plug carries no
    /// compound AM824 stream.
    pub freq: Option<u32>,
}

/// The sampling frequency that a code of a compound AM824 stream stands
/// for.
pub open spec fn compound_freq(code: u8) -> u32 {
    if code == 0x00 {
        22050
    } else if code == 0x01 {
        24000
    } else if code == 0x02 {
        32000
    } else if code == 0x03 {
        44100
    } else if code == 0x04 {
        48000
    } else if code == 0x05 {
        96000
    } else if code == 0x06 {
        176400
    } else if code == 0x07 {
        192000
    } else if code == 0x0a {
        88200
    } else {
        FREQ_UNKNOWN
    }
}

/// The code of a sampling frequency in a compound AM824 stream; 0xff for a
/// frequency without a code.
pub open spec fn compound_freq_code(freq: u32) -> u8 {
    if freq == 22050 {
        0x00
    } else if freq == 24000 {
        0x01
    } else if freq == 32000 {
        0x02
    } else if freq == 44100 {
        0x03
    } else if freq == 48000 {
        0x04
    } else if freq == 96000 {
        0x05
    } else if freq == 176400 {
        0x06
    } else if freq == 192000 {
        0x07
    } else if freq == 88200 {
        0x0a
    } else {
        0xff
    }
}

impl ExtendedStreamFormatSingle {
    /// The command that asks for the format of a plug.
    pub fn new(direction: PlugDirection, plug_id: u8) -> (op: ExtendedStreamFormatSingle)
        ensures
            op == (ExtendedStreamFormatSingle { direction, plug_id, freq: None }),
    {
        ExtendedStreamFormatSingle { direction, plug_id, freq: None }
    }

    /// The operands of the status command: the subfunction, the five bytes
    /// of the plug (direction, unit, isochronous, number, padding) and a
    /// byte of ones for the status.
    pub open spec fn operands(&self) -> Seq<u8> {
        seq![SUBFUNC_SINGLE, self.direction.spec_byte(), 0x00, 0x00, self.plug_id, 0xff, 0xff]
    }

    /// Why a response to the status command is turned down, if it is: the
    /// leading seven bytes repeat the subfunction and the plug, and the
    /// format behind them is complete as far as it is read.
    pub open spec fn fault(&self, operands: Seq<u8>) -> Option<AvcRespParseError> {
        if operands.len() < 7 {
            Some(AvcRespParseError::TooShortResp(7))
        } else if operands[0] != SUBFUNC_SINGLE {
            Some(AvcRespParseError::UnexpectedOperands(0))
        } else if operands[1] != self.direction.spec_byte() || operands[2] != 0x00 || operands[3]
            != 0x00 || operands[4] != self.plug_id {
            Some(AvcRespParseError::UnexpectedOperands(1))
        } else if operands.len() < 8 {
            Some(AvcRespParseError::TooShortResp(8))
        } else if operands[7] != HIER_ROOT_AM {
            None
        } else if operands.len() < 9 {
            Some(AvcRespParseError::TooShortResp(9))
        } else if operands[8] == HIER_LEVEL_1_AM824 && operands.len() < 13 {
            Some(AvcRespParseError::TooShortResp(13))
        } else if operands[8] == HIER_LEVEL_1_COMPOUND_AM824 && operands.len() < 12 {
            Some(AvcRespParseError::TooShortResp(12))
        } else {
            None
        }
    }

    /// The sampling frequency that a response reports: that of a compound
    /// AM824 stream, and none for any other format.
    pub open spec fn reported_freq(operands: Seq<u8>) -> Option<u32>
        recommends
            operands.len() >= 8,
    {
        if operands.len() >= 10 && operands[7] == HIER_ROOT_AM && operands[8]
            == HIER_LEVEL_1_COMPOUND_AM824 {
            Some(compound_freq(operands[9]))
        } else {
            None
        }
    }

    /// The command after the response with `operands` was read, or the
    /// reason why the response is turned down.
    pub open spec fn parsed(&self, operands: Seq<u8>) -> Result<
        ExtendedStreamFormatSingle,
        AvcRespParseError,
    > {
        match self.fault(operands) {
            Some(e) => Err(e),
            None => Ok(
                ExtendedStreamFormatSingle {
                    direction: self.direction,
                    plug_id: self.plug_id,
                    freq: ExtendedStreamFormatSingle::reported_freq(operands),
                },
            ),
        }
    }
}

/// `AvcStatus::build_operands` of ta1394_avc_stream_format's
/// `ExtendedStreamFormatSingle` for an isochronous plug of the unit: the
/// bytes are those of `ExtendedStreamFormatSingle::operands`.
#[verifier::external_body]
fn stream_format_status_operands(op: &ExtendedStreamFormatSingle) -> (operands: Vec<u8>)
    ensures
        operands@ == op.operands(),
{
    let direction = match op.direction {
        PlugDirection::Input => ta1394_avc_stream_format::PlugDirection::Input,
        PlugDirection::Output => ta1394_avc_stream_format::PlugDirection::Output,
    };
    let unit_type = ta1394_avc_stream_format::UnitPlugType::Pcr;
    let data = ta1394_avc_stream_format::UnitPlugData { unit_type, plug_id: op.plug_id };
    let mode = ta1394_avc_stream_format::PlugAddrMode::Unit(data);
    let plug_addr = ta1394_avc_stream_format::PlugAddr { direction, mode };
    let mut single = ta1394_avc_stream_format::ExtendedStreamFormatSingle::new(&plug_addr);
    let mut operands = Vec::new();
    let addr = ta1394_avc_general::AvcAddr::Unit;
    let _ = ta1394_avc_general::AvcStatus::build_operands(&mut single, &addr, &mut operands);
    operands
}

/// `AvcStatus::parse_operands` of ta1394_avc_stream_format's
/// `ExtendedStreamFormatSingle` for an isochronous plug of the unit,
/// followed by `StreamFormat::as_compound_am824_stream` and the frequency
/// of that stream. On operands that `fault` lets pass the outside code
/// accepts the response; the frequency of a compound AM824 stream is that
/// of the code in the tenth byte. On other operands it may fail or panic,
/// so they are left out.
#[verifier::external_body]
fn stream_format_status_freq(op: &ExtendedStreamFormatSingle, operands: &[u8]) -> (freq: Option<
    Option<u32>,
>)
    requires
        op.fault(operands@).is_none(),
    ensures
        freq == Some(ExtendedStreamFormatSingle::reported_freq(operands@)),
{
    let direction = match op.direction {
        PlugDirection::Input => ta1394_avc_stream_format::PlugDirection::Input,
        PlugDirection::Output => ta1394_avc_stream_format::PlugDirection::Output,
    };
    let unit_type = ta1394_avc_stream_format::UnitPlugType::Pcr;
    let data = ta1394_avc_stream_format::UnitPlugData { unit_type, plug_id: op.plug_id };
    let mode = ta1394_avc_stream_format::PlugAddrMode::Unit(data);
    let plug_addr = ta1394_avc_stream_format::PlugAddr { direction, mode };
    let mut single = ta1394_avc_stream_format::ExtendedStreamFormatSingle::new(&plug_addr);
    let addr = ta1394_avc_general::AvcAddr::Unit;
    ta1394_avc_general::AvcStatus::parse_operands(&mut single, &addr, operands).ok()?;
    Some(single.stream_format.as_compound_am824_stream().map(|stream| stream.freq))
}

impl ExtendedStreamFormatSingle {
    /// Serialises the status command. The command goes to any target.
    pub fn build_operands(&self) -> (operands: Vec<u8>)
        ensures
            operands@ == self.operands(),
    {
        stream_format_status_operands(self)
    }

    /// Reads the operands of the response to a status command into the
    /// command.
    pub fn parse_operands(&mut self, operands: &[u8]) -> (parsed: Result<(), AvcRespParseError>)
        ensures
            match old(self).parsed(operands@) {
                Ok(op) => parsed is Ok && *final(self) == op,
                Err(e) => parsed == Err::<(), AvcRespParseError>(e) && *final(self) == *old(self),
            },
    {
        if operands.len() < 7 {
            return Err(AvcRespParseError::TooShortResp(7));
        }
        if operands[0] != SUBFUNC_SINGLE {
            return Err(AvcRespParseError::UnexpectedOperands(0));
        }
        if operands[1] != self.direction.byte() || operands[2] != 0x00 || operands[3] != 0x00
            || operands[4] != self.plug_id {
            return Err(AvcRespParseError::UnexpectedOperands(1));
        }
        if operands.len() < 8 {
            return Err(AvcRespParseError::TooShortResp(8));
        }
        if operands[7] == HIER_ROOT_AM {
            if operands.len() < 9 {
                return Err(AvcRespParseError::TooShortResp(9));
            }
            if operands[8] == HIER_LEVEL_1_AM824 && operands.len() < 13 {
                return Err(AvcRespParseError::TooShortResp(13));
            }
            if operands[8] == HIER_LEVEL_1_COMPOUND_AM824 && operands.len() < 12 {
                return Err(AvcRespParseError::TooShortResp(12));
            }
        }
        match stream_format_status_freq(self, operands) {
            Some(freq) => {
                self.freq = freq;
                Ok(())
            },
            None => Err(AvcRespParseError::UnexpectedOperands(7)),
        }
    }
}

} // verus!
