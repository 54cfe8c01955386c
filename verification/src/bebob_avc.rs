//! One transaction: the command frame that goes out, and what the response
//! frame that came back means for the operation.

use vstd::prelude::*;
use crate::error::{avc_err, from_avc_err, AvcRespParseError, Error, Ta1394AvcError};
use crate::frame::{
    command_frame, compose_command_frame, detect_response_operands, response_operands, AvcAddr,
    AvcCmdType, AvcRespCode,
};
use crate::operation::{AvcOperation, AvcOperationView};
use crate::plug_signal::{INPUT_PLUG_SIGNAL_FORMAT_OPCODE, OUTPUT_PLUG_SIGNAL_FORMAT_OPCODE};
use crate::signal_source::SIGNAL_SOURCE_OPCODE;

verus! {

/// Transactions with a device whose responses to three control commands
/// carry a status code against the general rule.
#[derive(Clone, Copy, Debug, Default)]
pub struct BebobAvc;

/// Whether the opcode is one of the three for which the device answers a
/// control command with the reserved code zero.
pub open spec fn is_quirk_opcode(opcode: u8) -> bool {
    opcode == INPUT_PLUG_SIGNAL_FORMAT_OPCODE || opcode == OUTPUT_PLUG_SIGNAL_FORMAT_OPCODE
        || opcode == SIGNAL_SOURCE_OPCODE
}

/// Whether a response with status `rcode` to a command of type `ctype` with
/// `opcode` counts as success. A control command succeeds with "accepted",
/// and for the three opcodes of the quirk also with the reserved code zero;
/// a status command succeeds with "implemented/stable".
pub open spec fn accepts(ctype: AvcCmdType, opcode: u8, rcode: AvcRespCode) -> bool {
    match ctype {
        AvcCmdType::Control => rcode == AvcRespCode::Accepted || (is_quirk_opcode(opcode) && rcode
            == AvcRespCode::Reserved(0x00)),
        AvcCmdType::Status => rcode == AvcRespCode::ImplementedStable,
    }
}

/// The frame of the command of type `ctype` that carries `op` to `addr`, or
/// the reason why there is none.
pub open spec fn command_of(ctype: AvcCmdType, addr: AvcAddr, op: AvcOperationView) -> Result<
    Seq<u8>,
    Ta1394AvcError,
> {
    match op.built(ctype, addr) {
        Ok(operands) => Ok(command_frame(ctype, addr, op.opcode(), operands)),
        Err(e) => Err(Ta1394AvcError::CmdBuild(e)),
    }
}

/// The operation after the response `frame` to its command was read, or the
/// reason why the response is turned down: it answers another command, its
/// status is not success, or its operands are not those of the operation.
pub open spec fn outcome_of(
    ctype: AvcCmdType,
    addr: AvcAddr,
    op: AvcOperationView,
    frame: Seq<u8>,
) -> Result<AvcOperationView, Ta1394AvcError> {
    match response_operands(frame, addr, op.opcode()) {
        Err(e) => Err(Ta1394AvcError::RespParse(e)),
        Ok((rcode, operands)) => if !accepts(ctype, op.opcode(), rcode) {
            Err(Ta1394AvcError::RespParse(AvcRespParseError::UnexpectedStatus))
        } else {
            match op.parsed(ctype, operands) {
                Ok(reported) => Ok(reported),
                Err(e) => Err(Ta1394AvcError::RespParse(e)),
            }
        },
    }
}

/// Decides whether the status of a response counts as success.
pub fn response_accepted(ctype: AvcCmdType, opcode: u8, rcode: AvcRespCode) -> (accepted: bool)
    ensures
        accepted == accepts(ctype, opcode, rcode),
{
    match ctype {
        AvcCmdType::Control => {
            let quirk = opcode == INPUT_PLUG_SIGNAL_FORMAT_OPCODE || opcode
                == OUTPUT_PLUG_SIGNAL_FORMAT_OPCODE || opcode == SIGNAL_SOURCE_OPCODE;
            match rcode {
                AvcRespCode::Accepted => true,
                AvcRespCode::Reserved(code) => quirk && code == 0x00,
                _ => false,
            }
        },
        AvcCmdType::Status => match rcode {
            AvcRespCode::ImplementedStable => true,
            _ => false,
        },
    }
}

/// Builds the frame of a command.
fn command(ctype: AvcCmdType, addr: &AvcAddr, op: &AvcOperation) -> (frame: Result<
    Vec<u8>,
    Ta1394AvcError,
>)
    ensures
        match command_of(ctype, *addr, op@) {
            Ok(bytes) => frame is Ok && frame->Ok_0@ == bytes,
            Err(e) => frame == Err::<Vec<u8>, Ta1394AvcError>(e),
        },
{
    match op.build_operands(ctype, addr) {
        Ok(operands) => Ok(compose_command_frame(ctype, addr, op.opcode(), operands.as_slice())),
        Err(e) => Err(Ta1394AvcError::CmdBuild(e)),
    }
}

/// Reads the response to a command into its operation.
fn response(ctype: AvcCmdType, addr: &AvcAddr, op: &mut AvcOperation, frame: &[u8]) -> (outcome:
    Result<(), Ta1394AvcError>)
    ensures
        match outcome_of(ctype, *addr, old(op)@, frame@) {
            Ok(reported) => outcome is Ok && final(op)@ == reported,
            Err(e) => outcome == Err::<(), Ta1394AvcError>(e) && final(op)@ == old(op)@,
        },
{
    let opcode = op.opcode();
    match detect_response_operands(frame, addr, opcode) {
        Err(e) => Err(Ta1394AvcError::RespParse(e)),
        Ok((rcode, operands)) => {
            if !response_accepted(ctype, opcode, rcode) {
                Err(Ta1394AvcError::RespParse(AvcRespParseError::UnexpectedStatus))
            } else {
                match op.parse_operands(ctype, operands) {
                    Ok(()) => Ok(()),
                    Err(e) => Err(Ta1394AvcError::RespParse(e)),
                }
            }
        },
    }
}

/// The failure that a capability reports for a failed transaction.
pub open spec fn reported_err<T>(outcome: Result<T, Ta1394AvcError>) -> Result<T, Error> {
    match outcome {
        Ok(value) => Ok(value),
        Err(e) => Err(avc_err(e)),
    }
}

impl BebobAvc {
    /// The frame of the control command that carries `op` to `addr`. A
    /// command that cannot be built yields no frame, so nothing is sent.
    pub fn control_command(addr: &AvcAddr, op: &AvcOperation) -> (frame: Result<Vec<u8>, Error>)
        ensures
            match reported_err(command_of(AvcCmdType::Control, *addr, op@)) {
                Ok(bytes) => frame is Ok && frame->Ok_0@ == bytes,
                Err(e) => frame == Err::<Vec<u8>, Error>(e),
            },
    {
        match command(AvcCmdType::Control, addr, op) {
            Ok(frame) => Ok(frame),
            Err(e) => Err(from_avc_err(e)),
        }
    }

    /// Reads the response to the control command for `op` at `addr`. The
    /// response must answer that command and report "accepted"; for the
    /// input and output plug signal format and the signal source the
    /// reserved code zero is success too.
    pub fn control(addr: &AvcAddr, op: &mut AvcOperation, response_frame: &[u8]) -> (outcome:
        Result<(), Error>)
        ensures
            match reported_err(outcome_of(AvcCmdType::Control, *addr, old(op)@, response_frame@)) {
                Ok(reported) => outcome is Ok && final(op)@ == reported,
                Err(e) => outcome == Err::<(), Error>(e) && final(op)@ == old(op)@,
            },
    {
        match response(AvcCmdType::Control, addr, op, response_frame) {
            Ok(()) => Ok(()),
            Err(e) => Err(from_avc_err(e)),
        }
    }

    /// The frame of the status command that carries `op` to `addr`.
    pub fn status_command(addr: &AvcAddr, op: &AvcOperation) -> (frame: Result<Vec<u8>, Error>)
        ensures
            match reported_err(command_of(AvcCmdType::Status, *addr, op@)) {
                Ok(bytes) => frame is Ok && frame->Ok_0@ == bytes,
                Err(e) => frame == Err::<Vec<u8>, Error>(e),
            },
    {
        match command(AvcCmdType::Status, addr, op) {
            Ok(frame) => Ok(frame),
            Err(e) => Err(from_avc_err(e)),
        }
    }

    /// Reads the response to the status command for `op` at `addr`. The
    /// response must answer that command and report "implemented/stable".
    pub fn status(addr: &AvcAddr, op: &mut AvcOperation, response_frame: &[u8]) -> (outcome: Result<
        (),
        Error,
    >)
        ensures
            match reported_err(outcome_of(AvcCmdType::Status, *addr, old(op)@, response_frame@)) {
                Ok(reported) => outcome is Ok && final(op)@ == reported,
                Err(e) => outcome == Err::<(), Error>(e) && final(op)@ == old(op)@,
            },
    {
        match response(AvcCmdType::Status, addr, op, response_frame) {
            Ok(()) => Ok(()),
            Err(e) => Err(from_avc_err(e)),
        }
    }
}

/// The reserved code zero is success for the control commands of the input
/// plug signal format, the output plug signal format and the signal source,
/// and for no other operation: a response that carries it to any other
/// control command is turned down for its status.
pub proof fn reserved_code_policy(addr: AvcAddr, op: AvcOperationView, frame: Seq<u8>)
    requires
        frame.len() >= 3,
        frame[1] == addr.spec_byte(),
        frame[2] == op.opcode(),
        frame[0] & 0x0f == 0x00,
    ensures
        forall|opcode: u8|
            accepts(AvcCmdType::Control, opcode, AvcRespCode::Reserved(0x00)) <==> is_quirk_opcode(
                opcode,
            ),
        forall|opcode: u8| !accepts(AvcCmdType::Status, opcode, AvcRespCode::Reserved(0x00)),
        accepts(AvcCmdType::Control, op.opcode(), AvcRespCode::Reserved(0x00)) <==> (op is InputPlugSignalFormat
            || op is OutputPlugSignalFormat || op is SignalSource),
        !(op is InputPlugSignalFormat || op is OutputPlugSignalFormat || op is SignalSource)
            ==> outcome_of(AvcCmdType::Control, addr, op, frame) == Err::<
            AvcOperationView,
            Ta1394AvcError,
        >(Ta1394AvcError::RespParse(AvcRespParseError::UnexpectedStatus)),
        (op is InputPlugSignalFormat || op is OutputPlugSignalFormat || op is SignalSource)
            ==> outcome_of(AvcCmdType::Control, addr, op, frame) == outcome_of(
            AvcCmdType::Control,
            addr,
            op,
            frame.update(0, 0x09u8),
        ),
{
    assert(0x09u8 & 0x0f == 0x09) by (bit_vector);
    let accepted = frame.update(0, 0x09u8);
    assert(accepted.subrange(3, accepted.len() as int) =~= frame.subrange(3, frame.len() as int));
}

} // verus!
