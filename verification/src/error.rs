//! Failures of the command protocol, and how they are classified.

use vstd::prelude::*;

verus! {

/// Why the operands of a command could not be prepared.
#[derive(Clone, Copy, Debug, PartialEq, Eq, Structural)]
pub enum AvcCmdBuildError {
    /// The operation cannot be addressed to the given target.
    InvalidAddress,
    /// The operation holds a value that has no encoding, or has no command
    /// of the wanted type.
    InvalidOperands,
}

/// Why a response frame was turned down.
#[derive(Clone, Copy, Debug, PartialEq, Eq, Structural)]
pub enum AvcRespParseError {
    /// The frame, or its operands, end before the given number of bytes.
    TooShortResp(usize),
    /// The response code is not the one that the command type asks for.
    UnexpectedStatus,
    /// The response names another target than the command did.
    UnexpectedAddr,
    /// The response names another operation than the command did.
    UnexpectedOpcode,
    /// The operand at the given offset is not what the operation allows.
    UnexpectedOperands(usize),
}

/// Outcome of one transaction that did not succeed.
#[derive(Clone, Copy, Debug, PartialEq, Eq, Structural)]
pub enum Ta1394AvcError {
    /// The command was never sent.
    CmdBuild(AvcCmdBuildError),
    /// The bus did not deliver a response.
    CommunicationFailure,
    /// A response came and was turned down.
    RespParse(AvcRespParseError),
}

/// The class under which a failure is reported to the caller.
#[derive(Clone, Copy, Debug, PartialEq, Eq, Structural)]
pub enum FileError {
    /// The caller's argument is at fault.
    Inval,
    /// The exchange with the device is at fault.
    Io,
    /// The device lacks what was asked for.
    Nxio,
}

/// The table or list that an argument was meant to index.
#[derive(Clone, Copy, Debug, PartialEq, Eq, Structural)]
pub enum Argument {
    /// Index into the list of sampling frequencies.
    Frequency,
    /// Index into the list of clock sources.
    ClockSource,
    /// Index into the table of function blocks and channels.
    FunctionBlock,
    /// Index into the list of selector function blocks.
    Selector,
    /// Index into the list of input plugs.
    InputPlug,
    /// Number of a pair of physical ports.
    PortPair,
    /// Number of pairs of physical ports.
    PortPairCount,
    /// Number of entries in a stream map.
    StreamMapLength,
    /// Index into the list of capture sources.
    InputSource,
    /// Number of values in the value of a control element.
    ElemValue,
}

/// Failure of a capability operation.
#[derive(Clone, Copy, Debug, PartialEq, Eq, Structural)]
pub enum Error {
    /// An index lies outside its table; carries the table and the index.
    InvalidArgument(Argument, usize),
    /// The command could not be built.
    CmdBuild(AvcCmdBuildError),
    /// The bus did not deliver a response.
    CommunicationFailure,
    /// The response was turned down.
    RespParse(AvcRespParseError),
    /// The device reports a sampling frequency that the list lacks.
    UnexpectedFrequency(u32),
    /// The device reports a clock source that the list lacks.
    UnexpectedClockSource,
    /// The device reports an input plug that the list lacks.
    UnexpectedInputPlug(u8),
    /// The device reports a stream format without a sampling frequency.
    StreamFormatUnavailable,
    /// Meters were asked for before the unit was loaded.
    MeteringNotPrepared,
    /// The device reports a sampling rate that it did not announce.
    UnsupportedRate(u32),
    /// No sampling rate was announced under the given index.
    RateIndexOutOfRange(usize),
    /// No announced stream format has the wanted sampling rate and the
    /// current layout.
    StreamFormatNotFound,
}

impl Error {
    /// The class of this failure. A failure of the bus has none of its own:
    /// its cause is passed through by whoever drove the bus.
    pub open spec fn spec_kind(self) -> Option<FileError> {
        match self {
            Error::InvalidArgument(_, _) => Some(FileError::Inval),
            Error::CmdBuild(_) => Some(FileError::Inval),
            Error::CommunicationFailure => None,
            Error::RespParse(_) => Some(FileError::Io),
            Error::UnexpectedFrequency(_) => Some(FileError::Io),
            Error::UnexpectedClockSource => Some(FileError::Io),
            Error::UnexpectedInputPlug(_) => Some(FileError::Io),
            Error::StreamFormatUnavailable => Some(FileError::Nxio),
            Error::MeteringNotPrepared => Some(FileError::Nxio),
            Error::UnsupportedRate(_) => Some(FileError::Io),
            Error::RateIndexOutOfRange(_) => Some(FileError::Io),
            Error::StreamFormatNotFound => Some(FileError::Nxio),
        }
    }

    #[verifier::when_used_as_spec(spec_kind)]
    pub fn kind(self) -> (kind: Option<FileError>)
        ensures
            kind == self.spec_kind(),
    {
        match self {
            Error::InvalidArgument(_, _) => Some(FileError::Inval),
            Error::CmdBuild(_) => Some(FileError::Inval),
            Error::CommunicationFailure => None,
            Error::RespParse(_) => Some(FileError::Io),
            Error::UnexpectedFrequency(_) => Some(FileError::Io),
            Error::UnexpectedClockSource => Some(FileError::Io),
            Error::UnexpectedInputPlug(_) => Some(FileError::Io),
            Error::StreamFormatUnavailable => Some(FileError::Nxio),
            Error::MeteringNotPrepared => Some(FileError::Nxio),
            Error::UnsupportedRate(_) => Some(FileError::Io),
            Error::RateIndexOutOfRange(_) => Some(FileError::Io),
            Error::StreamFormatNotFound => Some(FileError::Nxio),
        }
    }
}

/// The capability-level failure that stands for a failed transaction.
pub open spec fn avc_err(err: Ta1394AvcError) -> Error {
    match err {
        Ta1394AvcError::CmdBuild(cause) => Error::CmdBuild(cause),
        Ta1394AvcError::CommunicationFailure => Error::CommunicationFailure,
        Ta1394AvcError::RespParse(cause) => Error::RespParse(cause),
    }
}

/// Maps the failure of a transaction to the failure that capability
/// operations report: a command that could not be built is the caller's
/// fault, a response that was turned down is the exchange's.
pub fn from_avc_err(err: Ta1394AvcError) -> (error: Error)
    ensures
        error == avc_err(err),
        err is CmdBuild ==> error.spec_kind() == Some(FileError::Inval),
        err is RespParse ==> error.spec_kind() == Some(FileError::Io),
        err is CommunicationFailure ==> error.spec_kind().is_none(),
{
    match err {
        Ta1394AvcError::CmdBuild(cause) => Error::CmdBuild(cause),
        Ta1394AvcError::CommunicationFailure => Error::CommunicationFailure,
        Ta1394AvcError::RespParse(cause) => Error::RespParse(cause),
    }
}

} // verus!
