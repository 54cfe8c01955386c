//! Commands of the Fireworks board module. A command is a category, a
//! number within it and quadlets of arguments; the response holds
//! quadlets of parameters.

use vstd::prelude::*;

pub mod meter_ctl;
pub mod port_conf;
pub mod robot_guitar;

verus! {

/// What is handed to the transaction with the board module: the command
/// with its arguments, and the number of quadlets that the buffer for the
/// parameters of the response holds.
#[derive(Debug)]
pub struct EfwCommand {
    pub category: u32,
    pub command: u32,
    pub args: Vec<u32>,
    pub params_len: usize,
}

/// What `EfwCommand` holds.
pub struct EfwCommandView {
    pub category: u32,
    pub command: u32,
    pub args: Seq<u32>,
    pub params_len: usize,
}

impl View for EfwCommand {
    type V = EfwCommandView;

    open spec fn view(&self) -> EfwCommandView {
        EfwCommandView {
            category: self.category,
            command: self.command,
            args: self.args@,
            params_len: self.params_len,
        }
    }
}

} // verus!
