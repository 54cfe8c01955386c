//! The state of charging of a robot guitar.

use vstd::prelude::*;
use crate::efw::{EfwCommand, EfwCommandView};
use crate::error::{AvcRespParseError, Error};

verus! {

pub const CATEGORY_ROBOT_GUITAR: u32 = 10;

pub const CMD_SET_CHARGE_STATE: u32 = 7;

pub const CMD_GET_CHARGE_STATE: u32 = 8;

/// State of charging for Robot Guitar.
#[derive(Debug, Clone, Copy, PartialEq, Eq, Structural)]
pub struct GuitarChargeState {
    pub manual_charge: bool,
    pub auto_charge: bool,
    pub suspend_to_charge: u32,
}

/// The quadlet that stands for a switch.
pub open spec fn switch_quad(state: bool) -> u32 {
    if state {
        1
    } else {
        0
    }
}

/// Protocol about robot guitar for Fireworks board module: what each
/// command hands to the transaction, and how the parameters of its response
/// are read.
#[derive(Debug, Clone, Copy, Default)]
pub struct RobotGuitarProtocol;

impl RobotGuitarProtocol {
    /// The command that asks for the state of charging.
    pub fn get_charge_state_command() -> (cmd: EfwCommand)
        ensures
            cmd@ == (EfwCommandView {
                category: CATEGORY_ROBOT_GUITAR,
                command: CMD_GET_CHARGE_STATE,
                args: Seq::<u32>::empty(),
                params_len: 3,
            }),
    {
        EfwCommand {
            category: CATEGORY_ROBOT_GUITAR,
            command: CMD_GET_CHARGE_STATE,
            args: Vec::new(),
            params_len: 3,
        }
    }

    /// The state of charging that the three quadlets of a response report.
    pub fn get_charge_state(params: &[u32]) -> (state: Result<GuitarChargeState, Error>)
        ensures
            params@.len() < 3 ==> state == Err::<GuitarChargeState, Error>(
                Error::RespParse(AvcRespParseError::TooShortResp(3)),
            ),
            params@.len() >= 3 ==> state == Ok::<GuitarChargeState, Error>(
                GuitarChargeState {
                    manual_charge: params@[0] > 0,
                    auto_charge: params@[1] > 0,
                    suspend_to_charge: params@[2],
                },
            ),
    {
        if params.len() < 3 {
            return Err(Error::RespParse(AvcRespParseError::TooShortResp(3)));
        }
        Ok(
            GuitarChargeState {
                manual_charge: params[0] > 0,
                auto_charge: params[1] > 0,
                suspend_to_charge: params[2],
            },
        )
    }

    /// The command that sets the state of charging.
    pub fn set_charge_state(state: &GuitarChargeState) -> (cmd: EfwCommand)
        ensures
            cmd@ == (EfwCommandView {
                category: CATEGORY_ROBOT_GUITAR,
                command: CMD_SET_CHARGE_STATE,
                args: seq![
                    switch_quad(state.manual_charge),
                    switch_quad(state.auto_charge),
                    state.suspend_to_charge,
                ],
                params_len: 3,
            }),
    {
        let mut args: Vec<u32> = Vec::new();
        args.push(if state.manual_charge { 1 } else { 0 });
        args.push(if state.auto_charge { 1 } else { 0 });
        args.push(state.suspend_to_charge);
        assert(args@ =~= seq![
            switch_quad(state.manual_charge),
            switch_quad(state.auto_charge),
            state.suspend_to_charge,
        ]);
        EfwCommand {
            category: CATEGORY_ROBOT_GUITAR,
            command: CMD_SET_CHARGE_STATE,
            args,
            params_len: 3,
        }
    }

    /// A state of charging that was set is the state that is read from a
    /// board module that reports what it was told.
    pub proof fn charge_state_round_trip(state: GuitarChargeState)
        ensures
            ({
                let args = seq![
                    switch_quad(state.manual_charge),
                    switch_quad(state.auto_charge),
                    state.suspend_to_charge,
                ];
                GuitarChargeState {
                    manual_charge: args[0] > 0,
                    auto_charge: args[1] > 0,
                    suspend_to_charge: args[2],
                } == state
            }),
    {
    }
}

} // verus!
