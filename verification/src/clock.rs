//! The two clock capabilities: the sampling frequency of the media clock and
//! the source of the sampling clock. Each holds the list that maps the
//! index of a control to what the device is told.

use vstd::prelude::*;
use crate::bebob_avc::{command_of, outcome_of, BebobAvc};
use crate::error::{avc_err, Argument, Error};
use crate::frame::{AvcAddr, AvcCmdType};
use crate::operation::{AvcOperation, AvcOperationView};
use crate::plug_signal::{am824_fdf, PlugDirection, PlugSignalFormat, PlugSignalFormatView, FMT_IS_AMDTP};
use crate::signal_source::{SignalAddr, SignalSource, SignalUnitAddr};
use crate::stream_format::ExtendedStreamFormatSingle;
use crate::table::{position, position_in_bounds, position_signal_addr, position_u32};

verus! {

/// The step of a change of frequency whose response is awaited: the format
/// is set at the input plug first and at the output plug after it.
#[derive(Clone, Copy, Debug, PartialEq, Eq, Structural)]
pub enum ClkFreqStep {
    InputPlug,
    OutputPlug,
}

/// The operation that asks for the stream format of the isochronous output
/// plug 0 of the unit.
pub open spec fn freq_query() -> AvcOperationView {
    AvcOperationView::ExtendedStreamFormatSingle(
        ExtendedStreamFormatSingle { direction: PlugDirection::Output, plug_id: 0, freq: None },
    )
}

/// The operation that sets AM824 data at `freq` for plug 0 of the step.
pub open spec fn freq_setting(step: ClkFreqStep, freq: u32) -> AvcOperationView {
    let format = PlugSignalFormatView { plug_id: 0, fmt: FMT_IS_AMDTP, fdf: am824_fdf(freq) };
    match step {
        ClkFreqStep::InputPlug => AvcOperationView::InputPlugSignalFormat(format),
        ClkFreqStep::OutputPlug => AvcOperationView::OutputPlugSignalFormat(format),
    }
}

/// The step that follows a step, if any.
pub open spec fn next_step(step: ClkFreqStep) -> Option<ClkFreqStep> {
    match step {
        ClkFreqStep::InputPlug => Some(ClkFreqStep::OutputPlug),
        ClkFreqStep::OutputPlug => None,
    }
}

/// Frequency of the media clock, chosen from a list of sampling
/// frequencies.
#[derive(Debug)]
pub struct MediaClockFrequencyOperation {
    pub freq_list: Vec<u32>,
}

impl MediaClockFrequencyOperation {
    /// The capability for a list of sampling frequencies.
    pub fn new(freq_list: Vec<u32>) -> (op: MediaClockFrequencyOperation)
        ensures
            op.freq_list@ == freq_list@,
    {
        MediaClockFrequencyOperation { freq_list }
    }

    /// The frame that asks for the current frequency.
    pub open spec fn read_command(&self) -> Result<Seq<u8>, Error> {
        match command_of(AvcCmdType::Status, AvcAddr::Unit, freq_query()) {
            Ok(frame) => Ok(frame),
            Err(e) => Err(avc_err(e)),
        }
    }

    /// The index of the frequency that a response reports, or the failure:
    /// that of the transaction, no frequency in the reported format, or a
    /// frequency that the list lacks.
    pub open spec fn read_outcome(&self, frame: Seq<u8>) -> Result<int, Error> {
        match outcome_of(AvcCmdType::Status, AvcAddr::Unit, freq_query(), frame) {
            Err(e) => Err(avc_err(e)),
            Ok(AvcOperationView::ExtendedStreamFormatSingle(op)) => match op.freq {
                None => Err(Error::StreamFormatUnavailable),
                Some(freq) => match position(self.freq_list@, freq) {
                    Some(idx) => Ok(idx),
                    None => Err(Error::UnexpectedFrequency(freq)),
                },
            },
            Ok(_) => Err(Error::StreamFormatUnavailable),
        }
    }

    /// The frame that sets the frequency at `idx` at the plug of `step`, or
    /// the failure: an index outside the list yields no frame.
    pub open spec fn write_command(&self, idx: usize, step: ClkFreqStep) -> Result<Seq<u8>, Error> {
        if idx >= self.freq_list@.len() {
            Err(Error::InvalidArgument(Argument::Frequency, idx))
        } else {
            match command_of(
                AvcCmdType::Control,
                AvcAddr::Unit,
                freq_setting(step, self.freq_list@[idx as int]),
            ) {
                Ok(frame) => Ok(frame),
                Err(e) => Err(avc_err(e)),
            }
        }
    }

    /// What follows the response to the command of `step`: the next step,
    /// none when the change is complete, or the failure. A failure ends the
    /// change where it stands; the plug that was set stays set.
    pub open spec fn write_outcome(&self, idx: usize, step: ClkFreqStep, frame: Seq<u8>) -> Result<
        Option<ClkFreqStep>,
        Error,
    > {
        if idx >= self.freq_list@.len() {
            Err(Error::InvalidArgument(Argument::Frequency, idx))
        } else {
            match outcome_of(
                AvcCmdType::Control,
                AvcAddr::Unit,
                freq_setting(step, self.freq_list@[idx as int]),
                frame,
            ) {
                Ok(_) => Ok(next_step(step)),
                Err(e) => Err(avc_err(e)),
            }
        }
    }

    /// The status command that asks for the stream format of the
    /// isochronous output plug 0 of the unit.
    pub fn read_clk_freq_command(&self) -> (frame: Result<Vec<u8>, Error>)
        ensures
            match self.read_command() {
                Ok(bytes) => frame is Ok && frame->Ok_0@ == bytes,
                Err(e) => frame == Err::<Vec<u8>, Error>(e),
            },
            frame is Ok,
    {
        let op = AvcOperation::ExtendedStreamFormatSingle(
            ExtendedStreamFormatSingle::new(PlugDirection::Output, 0),
        );
        BebobAvc::status_command(&AvcAddr::Unit, &op)
    }

    /// Reads the response to the status command: the index of the reported
    /// sampling frequency in the list.
    pub fn read_clk_freq(&self, response_frame: &[u8]) -> (idx: Result<usize, Error>)
        ensures
            match self.read_outcome(response_frame@) {
                Ok(i) => idx == Ok::<usize, Error>(i as usize),
                Err(e) => idx == Err::<usize, Error>(e),
            },
            idx matches Ok(i) ==> i < self.freq_list@.len(),
    {
        let mut op = AvcOperation::ExtendedStreamFormatSingle(
            ExtendedStreamFormatSingle::new(PlugDirection::Output, 0),
        );
        BebobAvc::status(&AvcAddr::Unit, &mut op, response_frame)?;
        match op {
            AvcOperation::ExtendedStreamFormatSingle(single) => match single.freq {
                None => Err(Error::StreamFormatUnavailable),
                Some(freq) => {
                    proof {
                        position_in_bounds(self.freq_list@, freq);
                    }
                    match position_u32(self.freq_list.as_slice(), freq) {
                        Some(idx) => Ok(idx),
                        None => Err(Error::UnexpectedFrequency(freq)),
                    }
                },
            },
            _ => Err(Error::StreamFormatUnavailable),
        }
    }

    /// The control command of a step of the change to the frequency at
    /// `idx`: the signal format of AM824 data at that frequency for plug 0.
    /// A change begins with the step `InputPlug`.
    pub fn write_clk_freq_command(&self, idx: usize, step: ClkFreqStep) -> (frame: Result<
        Vec<u8>,
        Error,
    >)
        ensures
            match self.write_command(idx, step) {
                Ok(bytes) => frame is Ok && frame->Ok_0@ == bytes,
                Err(e) => frame == Err::<Vec<u8>, Error>(e),
            },
            frame is Ok <==> idx < self.freq_list@.len(),
    {
        if idx >= self.freq_list.len() {
            return Err(Error::InvalidArgument(Argument::Frequency, idx));
        }
        let format = PlugSignalFormat::new_am824(0, self.freq_list[idx]);
        let op = match step {
            ClkFreqStep::InputPlug => AvcOperation::InputPlugSignalFormat(format),
            ClkFreqStep::OutputPlug => AvcOperation::OutputPlugSignalFormat(format),
        };
        BebobAvc::control_command(&AvcAddr::Unit, &op)
    }

    /// Reads the response to the control command of `step` and tells the
    /// step to take next; `None` when both plugs are set.
    pub fn write_clk_freq(&self, idx: usize, step: ClkFreqStep, response_frame: &[u8]) -> (next:
        Result<Option<ClkFreqStep>, Error>)
        ensures
            next == self.write_outcome(idx, step, response_frame@),
            idx >= self.freq_list@.len() ==> next == Err::<Option<ClkFreqStep>, Error>(
                Error::InvalidArgument(Argument::Frequency, idx),
            ),
    {
        if idx >= self.freq_list.len() {
            return Err(Error::InvalidArgument(Argument::Frequency, idx));
        }
        let format = PlugSignalFormat::new_am824(0, self.freq_list[idx]);
        let mut op = match step {
            ClkFreqStep::InputPlug => AvcOperation::InputPlugSignalFormat(format),
            ClkFreqStep::OutputPlug => AvcOperation::OutputPlugSignalFormat(format),
        };
        BebobAvc::control(&AvcAddr::Unit, &mut op, response_frame)?;
        match step {
            ClkFreqStep::InputPlug => Ok(Some(ClkFreqStep::OutputPlug)),
            ClkFreqStep::OutputPlug => Ok(None),
        }
    }
}

/// Source of the sampling clock: the destination that the clock signal goes
/// to, and the list of plugs that it can come from.
#[derive(Debug)]
pub struct SamplingClockSourceOperation {
    pub dst: SignalAddr,
    pub src_list: Vec<SignalAddr>,
}

impl SamplingClockSourceOperation {
    /// The capability for a destination and its candidate sources.
    pub fn new(dst: SignalAddr, src_list: Vec<SignalAddr>) -> (op: SamplingClockSourceOperation)
        ensures
            op.dst == dst,
            op.src_list@ == src_list@,
    {
        SamplingClockSourceOperation { dst, src_list }
    }

    /// The operation that asks for the source of the destination.
    pub open spec fn query(&self) -> AvcOperationView {
        AvcOperationView::SignalSource(
            SignalSource { src: SignalAddr::Unit(SignalUnitAddr::Isoc(0x7f)), dst: self.dst },
        )
    }

    /// The operation that makes `src` the source of the destination.
    pub open spec fn setting(&self, src: SignalAddr) -> AvcOperationView {
        AvcOperationView::SignalSource(SignalSource { src, dst: self.dst })
    }

    /// The frame that asks for the current source.
    pub open spec fn read_command(&self) -> Result<Seq<u8>, Error> {
        match command_of(AvcCmdType::Status, AvcAddr::Unit, self.query()) {
            Ok(frame) => Ok(frame),
            Err(e) => Err(avc_err(e)),
        }
    }

    /// The index of the source that a response reports, or the failure:
    /// that of the transaction, or a source that the list lacks.
    pub open spec fn read_outcome(&self, frame: Seq<u8>) -> Result<int, Error> {
        match outcome_of(AvcCmdType::Status, AvcAddr::Unit, self.query(), frame) {
            Err(e) => Err(avc_err(e)),
            Ok(AvcOperationView::SignalSource(op)) => match position(self.src_list@, op.src) {
                Some(idx) => Ok(idx),
                None => Err(Error::UnexpectedClockSource),
            },
            Ok(_) => Err(Error::UnexpectedClockSource),
        }
    }

    /// The frame that selects the source at `idx`, or the failure: an index
    /// outside the list yields no frame.
    pub open spec fn write_command(&self, idx: usize) -> Result<Seq<u8>, Error> {
        if idx >= self.src_list@.len() {
            Err(Error::InvalidArgument(Argument::ClockSource, idx))
        } else {
            match command_of(
                AvcCmdType::Control,
                AvcAddr::Unit,
                self.setting(self.src_list@[idx as int]),
            ) {
                Ok(frame) => Ok(frame),
                Err(e) => Err(avc_err(e)),
            }
        }
    }

    /// Whether a response confirms the selection of the source at `idx`.
    pub open spec fn write_outcome(&self, idx: usize, frame: Seq<u8>) -> Result<(), Error> {
        if idx >= self.src_list@.len() {
            Err(Error::InvalidArgument(Argument::ClockSource, idx))
        } else {
            match outcome_of(
                AvcCmdType::Control,
                AvcAddr::Unit,
                self.setting(self.src_list@[idx as int]),
                frame,
            ) {
                Ok(_) => Ok(()),
                Err(e) => Err(avc_err(e)),
            }
        }
    }

    /// The status command that asks for the source of the destination.
    pub fn read_clk_src_command(&self) -> (frame: Result<Vec<u8>, Error>)
        ensures
            match self.read_command() {
                Ok(bytes) => frame is Ok && frame->Ok_0@ == bytes,
                Err(e) => frame == Err::<Vec<u8>, Error>(e),
            },
            frame is Ok,
    {
        let op = AvcOperation::SignalSource(SignalSource::new(&self.dst));
        BebobAvc::status_command(&AvcAddr::Unit, &op)
    }

    /// Reads the response to the status command: the index of the reported
    /// source in the list.
    pub fn read_clk_src(&self, response_frame: &[u8]) -> (idx: Result<usize, Error>)
        ensures
            match self.read_outcome(response_frame@) {
                Ok(i) => idx == Ok::<usize, Error>(i as usize),
                Err(e) => idx == Err::<usize, Error>(e),
            },
            idx matches Ok(i) ==> i < self.src_list@.len(),
    {
        let mut op = AvcOperation::SignalSource(SignalSource::new(&self.dst));
        BebobAvc::status(&AvcAddr::Unit, &mut op, response_frame)?;
        match op {
            AvcOperation::SignalSource(source) => {
                proof {
                    position_in_bounds(self.src_list@, source.src);
                }
                match position_signal_addr(self.src_list.as_slice(), source.src) {
                    Some(idx) => Ok(idx),
                    None => Err(Error::UnexpectedClockSource),
                }
            },
            _ => Err(Error::UnexpectedClockSource),
        }
    }

    /// The control command that makes the source at `idx` the source of the
    /// destination.
    pub fn write_clk_src_command(&self, idx: usize) -> (frame: Result<Vec<u8>, Error>)
        ensures
            match self.write_command(idx) {
                Ok(bytes) => frame is Ok && frame->Ok_0@ == bytes,
                Err(e) => frame == Err::<Vec<u8>, Error>(e),
            },
            frame is Ok <==> idx < self.src_list@.len(),
    {
        if idx >= self.src_list.len() {
            return Err(Error::InvalidArgument(Argument::ClockSource, idx));
        }
        let op = AvcOperation::SignalSource(SignalSource { src: self.src_list[idx], dst: self.dst });
        BebobAvc::control_command(&AvcAddr::Unit, &op)
    }

    /// Reads the response to the control command. What the device made of
    /// the selection is not read back.
    pub fn write_clk_src(&self, idx: usize, response_frame: &[u8]) -> (done: Result<(), Error>)
        ensures
            done == self.write_outcome(idx, response_frame@),
            idx >= self.src_list@.len() ==> done == Err::<(), Error>(
                Error::InvalidArgument(Argument::ClockSource, idx),
            ),
    {
        if idx >= self.src_list.len() {
            return Err(Error::InvalidArgument(Argument::ClockSource, idx));
        }
        let mut op = AvcOperation::SignalSource(
            SignalSource { src: self.src_list[idx], dst: self.dst },
        );
        match BebobAvc::control(&AvcAddr::Unit, &mut op, response_frame) {
            Ok(()) => Ok(()),
            Err(e) => Err(e),
        }
    }
}

} // verus!
