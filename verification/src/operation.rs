//! The operations that a transaction can carry, as one type: each knows its
//! opcode, the operands of its command and how to read a response.

use vstd::prelude::*;
use crate::audio::{AudioFeature, AudioSelector, FUNCTION_BLOCK_OPCODE};
use crate::error::{AvcCmdBuildError, AvcRespParseError};
use crate::frame::{AvcAddr, AvcCmdType};
use crate::plug_signal::{
    plug_signal_parsed, PlugDirection, PlugSignalFormat, PlugSignalFormatView,
    INPUT_PLUG_SIGNAL_FORMAT_OPCODE, OUTPUT_PLUG_SIGNAL_FORMAT_OPCODE,
};
use crate::signal_source::{SignalSource, SIGNAL_SOURCE_OPCODE};
use crate::stream_format::{ExtendedStreamFormatSingle, EXTENDED_STREAM_FORMAT_OPCODE};

verus! {

/// An operation with its parameters. The plug signal formats are set by
/// control commands only, and the extended stream format is read by status
/// commands only; the other operations have both forms.
#[derive(Clone, Copy, Debug)]
pub enum AvcOperation {
    InputPlugSignalFormat(PlugSignalFormat),
    OutputPlugSignalFormat(PlugSignalFormat),
    SignalSource(SignalSource),
    AudioFeature(AudioFeature),
    AudioSelector(AudioSelector),
    ExtendedStreamFormatSingle(ExtendedStreamFormatSingle),
}

/// What `AvcOperation` holds.
pub enum AvcOperationView {
    InputPlugSignalFormat(PlugSignalFormatView),
    OutputPlugSignalFormat(PlugSignalFormatView),
    SignalSource(SignalSource),
    AudioFeature(AudioFeature),
    AudioSelector(AudioSelector),
    ExtendedStreamFormatSingle(ExtendedStreamFormatSingle),
}

impl View for AvcOperation {
    type V = AvcOperationView;

    open spec fn view(&self) -> AvcOperationView {
        match self {
            AvcOperation::InputPlugSignalFormat(op) => AvcOperationView::InputPlugSignalFormat(op@),
            AvcOperation::OutputPlugSignalFormat(op) => AvcOperationView::OutputPlugSignalFormat(
                op@,
            ),
            AvcOperation::SignalSource(op) => AvcOperationView::SignalSource(*op),
            AvcOperation::AudioFeature(op) => AvcOperationView::AudioFeature(*op),
            AvcOperation::AudioSelector(op) => AvcOperationView::AudioSelector(*op),
            AvcOperation::ExtendedStreamFormatSingle(op) =>
                AvcOperationView::ExtendedStreamFormatSingle(*op),
        }
    }
}

impl AvcOperationView {
    /// The opcode of the operation.
    pub open spec fn opcode(self) -> u8 {
        match self {
            AvcOperationView::InputPlugSignalFormat(_) => INPUT_PLUG_SIGNAL_FORMAT_OPCODE,
            AvcOperationView::OutputPlugSignalFormat(_) => OUTPUT_PLUG_SIGNAL_FORMAT_OPCODE,
            AvcOperationView::SignalSource(_) => SIGNAL_SOURCE_OPCODE,
            AvcOperationView::AudioFeature(_) => FUNCTION_BLOCK_OPCODE,
            AvcOperationView::AudioSelector(_) => FUNCTION_BLOCK_OPCODE,
            AvcOperationView::ExtendedStreamFormatSingle(_) => EXTENDED_STREAM_FORMAT_OPCODE,
        }
    }

    /// Whether the operation has a command of the given type.
    pub open spec fn supports(self, ctype: AvcCmdType) -> bool {
        match self {
            AvcOperationView::InputPlugSignalFormat(_) => ctype == AvcCmdType::Control,
            AvcOperationView::OutputPlugSignalFormat(_) => ctype == AvcCmdType::Control,
            AvcOperationView::ExtendedStreamFormatSingle(_) => ctype == AvcCmdType::Status,
            _ => true,
        }
    }

    /// The operands of the command of type `ctype` for `addr`, or the
    /// reason why there is no such command.
    pub open spec fn built(self, ctype: AvcCmdType, addr: AvcAddr) -> Result<
        Seq<u8>,
        AvcCmdBuildError,
    > {
        if !self.supports(ctype) {
            Err(AvcCmdBuildError::InvalidOperands)
        } else {
            match self {
                AvcOperationView::InputPlugSignalFormat(op) => op.built(addr),
                AvcOperationView::OutputPlugSignalFormat(op) => op.built(addr),
                AvcOperationView::SignalSource(op) => Ok(op.operands(ctype)),
                AvcOperationView::AudioFeature(op) => op.built(addr),
                AvcOperationView::AudioSelector(op) => op.built(addr),
                AvcOperationView::ExtendedStreamFormatSingle(op) => Ok(op.operands()),
            }
        }
    }

    /// The operation after the response with `operands` to its command of
    /// type `ctype` was read, or the reason why the response is turned
    /// down.
    pub open spec fn parsed(self, ctype: AvcCmdType, operands: Seq<u8>) -> Result<
        AvcOperationView,
        AvcRespParseError,
    > {
        if !self.supports(ctype) {
            Err(AvcRespParseError::UnexpectedStatus)
        } else {
            match self {
                AvcOperationView::InputPlugSignalFormat(_) => match plug_signal_parsed(operands) {
                    Ok(op) => Ok(AvcOperationView::InputPlugSignalFormat(op)),
                    Err(e) => Err(e),
                },
                AvcOperationView::OutputPlugSignalFormat(_) => match plug_signal_parsed(operands) {
                    Ok(op) => Ok(AvcOperationView::OutputPlugSignalFormat(op)),
                    Err(e) => Err(e),
                },
                AvcOperationView::SignalSource(_) => match SignalSource::parsed(operands) {
                    Ok(op) => Ok(AvcOperationView::SignalSource(op)),
                    Err(e) => Err(e),
                },
                AvcOperationView::AudioFeature(op) => match op.parsed(operands) {
                    Ok(op) => Ok(AvcOperationView::AudioFeature(op)),
                    Err(e) => Err(e),
                },
                AvcOperationView::AudioSelector(op) => match op.parsed(operands) {
                    Ok(op) => Ok(AvcOperationView::AudioSelector(op)),
                    Err(e) => Err(e),
                },
                AvcOperationView::ExtendedStreamFormatSingle(op) => match op.parsed(operands) {
                    Ok(op) => Ok(AvcOperationView::ExtendedStreamFormatSingle(op)),
                    Err(e) => Err(e),
                },
            }
        }
    }
}

impl AvcOperation {
    /// The opcode of the operation.
    pub fn opcode(&self) -> (opcode: u8)
        ensures
            opcode == self@.opcode(),
    {
        match self {
            AvcOperation::InputPlugSignalFormat(_) => INPUT_PLUG_SIGNAL_FORMAT_OPCODE,
            AvcOperation::OutputPlugSignalFormat(_) => OUTPUT_PLUG_SIGNAL_FORMAT_OPCODE,
            AvcOperation::SignalSource(_) => SIGNAL_SOURCE_OPCODE,
            AvcOperation::AudioFeature(_) => FUNCTION_BLOCK_OPCODE,
            AvcOperation::AudioSelector(_) => FUNCTION_BLOCK_OPCODE,
            AvcOperation::ExtendedStreamFormatSingle(_) => EXTENDED_STREAM_FORMAT_OPCODE,
        }
    }

    /// Serialises the operands of the command of type `ctype` for `addr`.
    pub fn build_operands(&self, ctype: AvcCmdType, addr: &AvcAddr) -> (operands: Result<
        Vec<u8>,
        AvcCmdBuildError,
    >)
        ensures
            match self@.built(ctype, *addr) {
                Ok(bytes) => operands is Ok && operands->Ok_0@ == bytes,
                Err(e) => operands == Err::<Vec<u8>, AvcCmdBuildError>(e),
            },
    {
        match self {
            AvcOperation::InputPlugSignalFormat(op) => match ctype {
                AvcCmdType::Control => op.build_operands(PlugDirection::Input, addr),
                AvcCmdType::Status => Err(AvcCmdBuildError::InvalidOperands),
            },
            AvcOperation::OutputPlugSignalFormat(op) => match ctype {
                AvcCmdType::Control => op.build_operands(PlugDirection::Output, addr),
                AvcCmdType::Status => Err(AvcCmdBuildError::InvalidOperands),
            },
            AvcOperation::SignalSource(op) => op.build_operands(ctype),
            AvcOperation::AudioFeature(op) => op.build_operands(addr, ctype),
            AvcOperation::AudioSelector(op) => op.build_operands(addr, ctype),
            AvcOperation::ExtendedStreamFormatSingle(op) => match ctype {
                AvcCmdType::Control => Err(AvcCmdBuildError::InvalidOperands),
                AvcCmdType::Status => Ok(op.build_operands()),
            },
        }
    }

    /// Reads the operands of the response to the command of type `ctype`
    /// into the operation. An operation whose response is turned down is
    /// left as it was.
    pub fn parse_operands(&mut self, ctype: AvcCmdType, operands: &[u8]) -> (parsed: Result<
        (),
        AvcRespParseError,
    >)
        ensures
            match old(self)@.parsed(ctype, operands@) {
                Ok(op) => parsed is Ok && final(self)@ == op,
                Err(e) => parsed == Err::<(), AvcRespParseError>(e) && final(self)@ == old(self)@,
            },
    {
        match *self {
            AvcOperation::InputPlugSignalFormat(op) => match ctype {
                AvcCmdType::Control => {
                    let mut op = op;
                    let parsed = op.parse_operands(PlugDirection::Input, operands);
                    *self = AvcOperation::InputPlugSignalFormat(op);
                    parsed
                },
                AvcCmdType::Status => Err(AvcRespParseError::UnexpectedStatus),
            },
            AvcOperation::OutputPlugSignalFormat(op) => match ctype {
                AvcCmdType::Control => {
                    let mut op = op;
                    let parsed = op.parse_operands(PlugDirection::Output, operands);
                    *self = AvcOperation::OutputPlugSignalFormat(op);
                    parsed
                },
                AvcCmdType::Status => Err(AvcRespParseError::UnexpectedStatus),
            },
            AvcOperation::SignalSource(op) => {
                let mut op = op;
                let parsed = op.parse_operands(ctype, operands);
                *self = AvcOperation::SignalSource(op);
                parsed
            },
            AvcOperation::AudioFeature(op) => {
                let mut op = op;
                let parsed = op.parse_operands(ctype, operands);
                *self = AvcOperation::AudioFeature(op);
                parsed
            },
            AvcOperation::AudioSelector(op) => {
                let mut op = op;
                let parsed = op.parse_operands(ctype, operands);
                *self = AvcOperation::AudioSelector(op);
                parsed
            },
            AvcOperation::ExtendedStreamFormatSingle(op) => match ctype {
                AvcCmdType::Control => Err(AvcRespParseError::UnexpectedStatus),
                AvcCmdType::Status => {
                    let mut op = op;
                    let parsed = op.parse_operands(operands);
                    *self = AvcOperation::ExtendedStreamFormatSingle(op);
                    parsed
                },
            },
        }
    }
}

} // verus!
