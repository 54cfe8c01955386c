//! Command and response frames: the three bytes in front of the operands.

use vstd::prelude::*;
use vstd::slice::slice_subrange;
use crate::error::AvcRespParseError;

verus! {

/// Largest number of bytes in a command or response frame.
pub const FRAME_SIZE: usize = 0x200;

/// The bits of a response's first byte that hold the response code.
pub const RESP_CODE_MASK: u8 = 0x0f;

/// Subunit type of audio subunits.
pub const SUBUNIT_TYPE_AUDIO: u8 = 0x01;

/// A subunit inside the unit: its type (five bits on the wire) and its
/// number (three bits).
#[derive(Clone, Copy, Debug, PartialEq, Eq, Structural)]
pub struct AvcAddrSubunit {
    pub subunit_type: u8,
    pub subunit_id: u8,
}

/// The target of a command: the unit itself or one of its subunits.
#[derive(Clone, Copy, Debug, PartialEq, Eq, Structural)]
pub enum AvcAddr {
    Unit,
    Subunit(AvcAddrSubunit),
}

/// The address of the first audio subunit.
pub open spec fn audio_subunit_0_addr() -> AvcAddr {
    AvcAddr::Subunit(AvcAddrSubunit { subunit_type: SUBUNIT_TYPE_AUDIO, subunit_id: 0 })
}

/// The address of the first audio subunit.
pub fn audio_subunit_0() -> (addr: AvcAddr)
    ensures
        addr == audio_subunit_0_addr(),
        addr.spec_is_audio(),
{
    AvcAddr::Subunit(AvcAddrSubunit { subunit_type: SUBUNIT_TYPE_AUDIO, subunit_id: 0 })
}

impl AvcAddr {
    /// The address byte of a frame.
    pub open spec fn spec_byte(&self) -> u8 {
        match self {
            AvcAddr::Unit => 0xff,
            AvcAddr::Subunit(s) => ((s.subunit_type & 0x1f) << 3) | (s.subunit_id & 0x07),
        }
    }

    /// Whether the target is an audio subunit.
    pub open spec fn spec_is_audio(&self) -> bool {
        match self {
            AvcAddr::Unit => false,
            AvcAddr::Subunit(s) => s.subunit_type == SUBUNIT_TYPE_AUDIO,
        }
    }

    #[verifier::when_used_as_spec(spec_is_audio)]
    pub fn is_audio(&self) -> (audio: bool)
        ensures
            audio == self.spec_is_audio(),
    {
        match self {
            AvcAddr::Unit => false,
            AvcAddr::Subunit(s) => s.subunit_type == SUBUNIT_TYPE_AUDIO,
        }
    }

    /// The address byte of a frame.
    #[verifier::when_used_as_spec(spec_byte)]
    pub fn byte(&self) -> (b: u8)
        ensures
            b == self.spec_byte(),
    {
        avc_addr_byte(self)
    }
}

/// `u8::from` for `ta1394_avc_general::AvcAddr`: 0xff for the unit; for a
/// subunit the low five bits of its type, shifted left by three, joined with
/// the low three bits of its number.
#[verifier::external_body]
fn avc_addr_byte(addr: &AvcAddr) -> (b: u8)
    ensures
        b == addr.spec_byte(),
{
    let target = match addr {
        AvcAddr::Unit => ta1394_avc_general::AvcAddr::Unit,
        AvcAddr::Subunit(s) => ta1394_avc_general::AvcAddr::Subunit(
            ta1394_avc_general::AvcAddrSubunit {
                subunit_type: ta1394_avc_general::AvcSubunitType::from(s.subunit_type),
                subunit_id: s.subunit_id,
            },
        ),
    };
    u8::from(target)
}

/// What a command asks the target to do.
#[derive(Clone, Copy, Debug, PartialEq, Eq, Structural)]
pub enum AvcCmdType {
    /// Change the target's state.
    Control,
    /// Report the target's state.
    Status,
}

impl AvcCmdType {
    /// The first byte of a command frame.
    pub open spec fn spec_byte(self) -> u8 {
        match self {
            AvcCmdType::Control => 0x00,
            AvcCmdType::Status => 0x01,
        }
    }

    /// The first byte of a command frame.
    #[verifier::when_used_as_spec(spec_byte)]
    pub fn byte(self) -> (b: u8)
        ensures
            b == self.spec_byte(),
    {
        avc_cmd_type_byte(self)
    }
}

/// `u8::from` for `ta1394_avc_general::AvcCmdType`: zero for a control
/// command, one for a status command.
#[verifier::external_body]
fn avc_cmd_type_byte(ctype: AvcCmdType) -> (b: u8)
    ensures
        b == ctype.spec_byte(),
{
    u8::from(match ctype {
        AvcCmdType::Control => ta1394_avc_general::AvcCmdType::Control,
        AvcCmdType::Status => ta1394_avc_general::AvcCmdType::Status,
    })
}

/// The status that a response reports.
#[derive(Clone, Copy, Debug, PartialEq, Eq, Structural)]
pub enum AvcRespCode {
    NotImplemented,
    Accepted,
    Rejected,
    InTransition,
    ImplementedStable,
    Changed,
    Interim,
    /// A code that the protocol does not name.
    Reserved(u8),
}

impl AvcRespCode {
    /// The status that a code stands for.
    pub open spec fn spec_from_code(code: u8) -> AvcRespCode {
        if code == 0x08 {
            AvcRespCode::NotImplemented
        } else if code == 0x09 {
            AvcRespCode::Accepted
        } else if code == 0x0a {
            AvcRespCode::Rejected
        } else if code == 0x0b {
            AvcRespCode::InTransition
        } else if code == 0x0c {
            AvcRespCode::ImplementedStable
        } else if code == 0x0d {
            AvcRespCode::Changed
        } else if code == 0x0f {
            AvcRespCode::Interim
        } else {
            AvcRespCode::Reserved(code)
        }
    }

    /// The status that a code stands for.
    #[verifier::when_used_as_spec(spec_from_code)]
    pub fn from_code(code: u8) -> (rcode: AvcRespCode)
        ensures
            rcode == AvcRespCode::spec_from_code(code),
    {
        avc_resp_code(code)
    }
}

/// `AvcRespCode::from` of ta1394_avc_general: the codes 0x08 to 0x0d and
/// 0x0f have names, every other code is kept as reserved.
#[verifier::external_body]
fn avc_resp_code(code: u8) -> (rcode: AvcRespCode)
    ensures
        rcode == AvcRespCode::spec_from_code(code),
{
    match ta1394_avc_general::AvcRespCode::from(code) {
        ta1394_avc_general::AvcRespCode::NotImplemented => AvcRespCode::NotImplemented,
        ta1394_avc_general::AvcRespCode::Accepted => AvcRespCode::Accepted,
        ta1394_avc_general::AvcRespCode::Rejected => AvcRespCode::Rejected,
        ta1394_avc_general::AvcRespCode::InTransition => AvcRespCode::InTransition,
        ta1394_avc_general::AvcRespCode::ImplementedStable => AvcRespCode::ImplementedStable,
        ta1394_avc_general::AvcRespCode::Changed => AvcRespCode::Changed,
        ta1394_avc_general::AvcRespCode::Interim => AvcRespCode::Interim,
        ta1394_avc_general::AvcRespCode::Reserved(val) => AvcRespCode::Reserved(val),
    }
}

/// The bytes of a command frame: command type, target, opcode, operands.
pub open spec fn command_frame(ctype: AvcCmdType, addr: AvcAddr, opcode: u8, operands: Seq<u8>) -> Seq<
    u8,
> {
    seq![ctype.spec_byte(), addr.spec_byte(), opcode] + operands
}

/// What a response frame holds for a command to `addr` with `opcode`: its
/// status and its operands, or the reason why it is no answer to that
/// command.
pub open spec fn response_operands(frame: Seq<u8>, addr: AvcAddr, opcode: u8) -> Result<
    (AvcRespCode, Seq<u8>),
    AvcRespParseError,
> {
    if frame.len() < 3 {
        Err(AvcRespParseError::TooShortResp(3))
    } else if frame[1] != addr.spec_byte() {
        Err(AvcRespParseError::UnexpectedAddr)
    } else if frame[2] != opcode {
        Err(AvcRespParseError::UnexpectedOpcode)
    } else {
        Ok(
            (
                AvcRespCode::spec_from_code(frame[0] & RESP_CODE_MASK),
                frame.subrange(3, frame.len() as int),
            ),
        )
    }
}

/// Builds the command frame for an operation whose operands are given.
pub fn compose_command_frame(ctype: AvcCmdType, addr: &AvcAddr, opcode: u8, operands: &[u8]) -> (frame:
    Vec<u8>)
    ensures
        frame@ == command_frame(ctype, *addr, opcode, operands@),
{
    let mut frame: Vec<u8> = Vec::new();
    frame.push(ctype.byte());
    frame.push(addr.byte());
    frame.push(opcode);
    frame.extend_from_slice(operands);
    assert(frame@ =~= command_frame(ctype, *addr, opcode, operands@));
    frame
}

/// Takes a response frame apart. A frame of less than three bytes, one from
/// another target or one for another operation is turned down.
pub fn detect_response_operands<'a>(frame: &'a [u8], addr: &AvcAddr, opcode: u8) -> (detected: Result<
    (AvcRespCode, &'a [u8]),
    AvcRespParseError,
>)
    ensures
        match response_operands(frame@, *addr, opcode) {
            Ok((rcode, operands)) => detected matches Ok((r, o)) && r == rcode && o@ == operands,
            Err(e) => detected == Err::<(AvcRespCode, &[u8]), AvcRespParseError>(e),
        },
{
    if frame.len() < 3 {
        Err(AvcRespParseError::TooShortResp(3))
    } else if frame[1] != addr.byte() {
        Err(AvcRespParseError::UnexpectedAddr)
    } else if frame[2] != opcode {
        Err(AvcRespParseError::UnexpectedOpcode)
    } else {
        let rcode = AvcRespCode::from_code(frame[0] & RESP_CODE_MASK);
        let operands = slice_subrange(frame, 3, frame.len());
        Ok((rcode, operands))
    }
}

} // verus!
