//! Control protocols of audio interfaces on the IEEE 1394 bus, without the
//! bus: every operation yields the frames to transmit and reads the frames
//! that came back.

pub mod error;
pub mod frame;
pub mod audio;
pub mod plug_signal;
pub mod signal_source;
pub mod stream_format;
pub mod operation;
pub mod bebob_avc;
pub mod table;
pub mod clock;
pub mod level;
pub mod selector;
pub mod laws;
pub mod efw;
pub mod elem;
pub mod traveler;
pub mod loud;
pub mod esi;
pub mod v3_ctls;
pub mod common_ctl;
pub mod runtime;
