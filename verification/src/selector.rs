//! Selection of the input of selector function blocks of the first audio
//! subunit. One list names the function blocks, one the input plugs that
//! each of them can select.

use vstd::prelude::*;
use crate::audio::{AudioSelector, CtlAttr, INPUT_PLUG_UNSET};
use crate::bebob_avc::{command_of, outcome_of, BebobAvc};
use crate::error::{avc_err, Argument, AvcRespParseError, Error};
use crate::frame::{audio_subunit_0, audio_subunit_0_addr, AvcCmdType};
use crate::operation::{AvcOperation, AvcOperationView};
use crate::table::{position, position_in_bounds, position_u8};

verus! {

/// Selector function blocks and the input plugs that they select among.
#[derive(Debug)]
pub struct AvcSelectorOperation {
    /// The function block of each selector control.
    pub func_block_id_list: Vec<u8>,
    /// The input plugs that every selector can select, in the order of the
    /// values of the control.
    pub input_plug_id_list: Vec<u8>,
}

impl AvcSelectorOperation {
    /// The capability for a list of function blocks and a list of input
    /// plugs.
    pub fn new(func_block_id_list: Vec<u8>, input_plug_id_list: Vec<u8>) -> (op:
        AvcSelectorOperation)
        ensures
            op.func_block_id_list@ == func_block_id_list@,
            op.input_plug_id_list@ == input_plug_id_list@,
    {
        AvcSelectorOperation { func_block_id_list, input_plug_id_list }
    }

    /// The operation on the selector at `idx` with the given input plug.
    pub open spec fn selector(&self, idx: usize, input_plug_id: u8) -> AvcOperationView
        recommends
            idx < self.func_block_id_list@.len(),
    {
        AvcOperationView::AudioSelector(
            AudioSelector { func_blk_id: self.func_block_id_list@[idx as int], ctl_attr: CtlAttr::Current, input_plug_id },
        )
    }

    /// The frame that asks the selector at `idx` for its input, or the
    /// failure: an index outside the list yields no frame.
    pub open spec fn read_command(&self, idx: usize) -> Result<Seq<u8>, Error> {
        if idx >= self.func_block_id_list@.len() {
            Err(Error::InvalidArgument(Argument::Selector, idx))
        } else {
            match command_of(
                AvcCmdType::Status,
                audio_subunit_0_addr(),
                self.selector(idx, INPUT_PLUG_UNSET),
            ) {
                Ok(frame) => Ok(frame),
                Err(e) => Err(avc_err(e)),
            }
        }
    }

    /// The place of the input that a response reports in the list of input
    /// plugs, or the failure: that of the transaction, or an input plug that
    /// the list lacks.
    pub open spec fn read_outcome(&self, idx: usize, frame: Seq<u8>) -> Result<int, Error> {
        if idx >= self.func_block_id_list@.len() {
            Err(Error::InvalidArgument(Argument::Selector, idx))
        } else {
            match outcome_of(
                AvcCmdType::Status,
                audio_subunit_0_addr(),
                self.selector(idx, INPUT_PLUG_UNSET),
                frame,
            ) {
                Err(e) => Err(avc_err(e)),
                Ok(AvcOperationView::AudioSelector(op)) => match position(
                    self.input_plug_id_list@,
                    op.input_plug_id,
                ) {
                    Some(val) => Ok(val),
                    None => Err(Error::UnexpectedInputPlug(op.input_plug_id)),
                },
                Ok(_) => Err(Error::RespParse(AvcRespParseError::UnexpectedOperands(0))),
            }
        }
    }

    /// The frame that makes the selector at `idx` select the input plug at
    /// `val`, or the failure: an index outside its list yields no frame,
    /// the index of the selector being looked at first.
    pub open spec fn write_command(&self, idx: usize, val: usize) -> Result<Seq<u8>, Error> {
        if idx >= self.func_block_id_list@.len() {
            Err(Error::InvalidArgument(Argument::Selector, idx))
        } else if val >= self.input_plug_id_list@.len() {
            Err(Error::InvalidArgument(Argument::InputPlug, val))
        } else {
            match command_of(
                AvcCmdType::Control,
                audio_subunit_0_addr(),
                self.selector(idx, self.input_plug_id_list@[val as int]),
            ) {
                Ok(frame) => Ok(frame),
                Err(e) => Err(avc_err(e)),
            }
        }
    }

    /// Whether a response confirms that selection.
    pub open spec fn write_outcome(&self, idx: usize, val: usize, frame: Seq<u8>) -> Result<
        (),
        Error,
    > {
        if idx >= self.func_block_id_list@.len() {
            Err(Error::InvalidArgument(Argument::Selector, idx))
        } else if val >= self.input_plug_id_list@.len() {
            Err(Error::InvalidArgument(Argument::InputPlug, val))
        } else {
            match outcome_of(
                AvcCmdType::Control,
                audio_subunit_0_addr(),
                self.selector(idx, self.input_plug_id_list@[val as int]),
                frame,
            ) {
                Ok(_) => Ok(()),
                Err(e) => Err(avc_err(e)),
            }
        }
    }

    /// The status command that asks the selector at `idx` for its input.
    pub fn read_selector_command(&self, idx: usize) -> (frame: Result<Vec<u8>, Error>)
        ensures
            match self.read_command(idx) {
                Ok(bytes) => frame is Ok && frame->Ok_0@ == bytes,
                Err(e) => frame == Err::<Vec<u8>, Error>(e),
            },
            frame is Ok <==> idx < self.func_block_id_list@.len(),
    {
        if idx >= self.func_block_id_list.len() {
            return Err(Error::InvalidArgument(Argument::Selector, idx));
        }
        let op = AvcOperation::AudioSelector(
            AudioSelector { func_blk_id: self.func_block_id_list[idx], ctl_attr: CtlAttr::Current, input_plug_id: INPUT_PLUG_UNSET },
        );
        BebobAvc::status_command(&audio_subunit_0(), &op)
    }

    /// Reads the response to the status command: the place of the selected
    /// input in the list of input plugs.
    pub fn read_selector(&self, idx: usize, response_frame: &[u8]) -> (val: Result<usize, Error>)
        ensures
            match self.read_outcome(idx, response_frame@) {
                Ok(v) => val == Ok::<usize, Error>(v as usize),
                Err(e) => val == Err::<usize, Error>(e),
            },
            val matches Ok(v) ==> v < self.input_plug_id_list@.len(),
    {
        if idx >= self.func_block_id_list.len() {
            return Err(Error::InvalidArgument(Argument::Selector, idx));
        }
        let mut op = AvcOperation::AudioSelector(
            AudioSelector { func_blk_id: self.func_block_id_list[idx], ctl_attr: CtlAttr::Current, input_plug_id: INPUT_PLUG_UNSET },
        );
        BebobAvc::status(&audio_subunit_0(), &mut op, response_frame)?;
        match op {
            AvcOperation::AudioSelector(selector) => {
                proof {
                    position_in_bounds(self.input_plug_id_list@, selector.input_plug_id);
                }
                match position_u8(self.input_plug_id_list.as_slice(), selector.input_plug_id) {
                    Some(val) => Ok(val),
                    None => Err(Error::UnexpectedInputPlug(selector.input_plug_id)),
                }
            },
            _ => Err(Error::RespParse(AvcRespParseError::UnexpectedOperands(0))),
        }
    }

    /// The control command that makes the selector at `idx` select the
    /// input plug at `val`.
    pub fn write_selector_command(&self, idx: usize, val: usize) -> (frame: Result<Vec<u8>, Error>)
        ensures
            match self.write_command(idx, val) {
                Ok(bytes) => frame is Ok && frame->Ok_0@ == bytes,
                Err(e) => frame == Err::<Vec<u8>, Error>(e),
            },
            frame is Ok <==> idx < self.func_block_id_list@.len() && val
                < self.input_plug_id_list@.len(),
    {
        if idx >= self.func_block_id_list.len() {
            return Err(Error::InvalidArgument(Argument::Selector, idx));
        }
        if val >= self.input_plug_id_list.len() {
            return Err(Error::InvalidArgument(Argument::InputPlug, val));
        }
        let op = AvcOperation::AudioSelector(
            AudioSelector {
                func_blk_id: self.func_block_id_list[idx],
                ctl_attr: CtlAttr::Current,
                input_plug_id: self.input_plug_id_list[val],
            },
        );
        BebobAvc::control_command(&audio_subunit_0(), &op)
    }

    /// Reads the response to the control command.
    pub fn write_selector(&self, idx: usize, val: usize, response_frame: &[u8]) -> (done: Result<
        (),
        Error,
    >)
        ensures
            done == self.write_outcome(idx, val, response_frame@),
    {
        if idx >= self.func_block_id_list.len() {
            return Err(Error::InvalidArgument(Argument::Selector, idx));
        }
        if val >= self.input_plug_id_list.len() {
            return Err(Error::InvalidArgument(Argument::InputPlug, val));
        }
        let mut op = AvcOperation::AudioSelector(
            AudioSelector {
                func_blk_id: self.func_block_id_list[idx],
                ctl_attr: CtlAttr::Current,
                input_plug_id: self.input_plug_id_list[val],
            },
        );
        match BebobAvc::control(&audio_subunit_0(), &mut op, response_frame) {
            Ok(()) => Ok(()),
            Err(e) => Err(e),
        }
    }
}

} // verus!
