//! Configuration of ports: the source of the control room output, the mode
//! of the digital interface, phantom powering and the map between streams
//! and physical ports.

use vstd::prelude::*;
use crate::efw::{EfwCommand, EfwCommandView};
use crate::error::{Argument, AvcRespParseError, Error};

verus! {

pub const CATEGORY_PORT_CONF: u32 = 9;

pub const CMD_SET_MIRROR: u32 = 0;

pub const CMD_GET_MIRROR: u32 = 1;

pub const CMD_SET_DIG_MODE: u32 = 2;

pub const CMD_GET_DIG_MODE: u32 = 3;

pub const CMD_SET_PHANTOM: u32 = 4;

pub const CMD_GET_PHANTOM: u32 = 5;

pub const CMD_SET_STREAM_MAP: u32 = 6;

pub const CMD_GET_STREAM_MAP: u32 = 7;

/// Number of quadlets in a stream map.
pub const MAP_SIZE: usize = 70;

/// Number of entries for each direction in a stream map.
pub const MAP_ENTRY_COUNT: usize = 32;

/// The entry of a stream without physical port.
pub const MAP_ENTRY_DISABLE: u32 = 0xffffffff;

/// Type of audio signal for digital input and output.
#[derive(Debug, Copy, Clone, PartialEq, Eq, Structural)]
pub enum DigitalMode {
    /// Coaxial interface for S/PDIF signal.
    SpdifCoax,
    /// XLR interface for AES/EBU signal.
    AesebuXlr,
    /// Optical interface for S/PDIF signal.
    SpdifOpt,
    /// Optical interface for ADAT signal.
    AdatOpt,
    Unknown(u32),
}

/// The mode that a quadlet stands for.
pub open spec fn digital_mode_of(val: u32) -> DigitalMode {
    if val == 0 {
        DigitalMode::SpdifCoax
    } else if val == 1 {
        DigitalMode::AesebuXlr
    } else if val == 2 {
        DigitalMode::SpdifOpt
    } else if val == 3 {
        DigitalMode::AdatOpt
    } else {
        DigitalMode::Unknown(val)
    }
}

/// The quadlet that stands for a mode.
pub open spec fn digital_mode_code(mode: DigitalMode) -> u32 {
    match mode {
        DigitalMode::SpdifCoax => 0,
        DigitalMode::AesebuXlr => 1,
        DigitalMode::SpdifOpt => 2,
        DigitalMode::AdatOpt => 3,
        DigitalMode::Unknown(val) => val,
    }
}

impl From<u32> for DigitalMode {
    fn from(val: u32) -> (mode: DigitalMode)
        ensures
            mode == digital_mode_of(val),
    {
        match val {
            0 => DigitalMode::SpdifCoax,
            1 => DigitalMode::AesebuXlr,
            2 => DigitalMode::SpdifOpt,
            3 => DigitalMode::AdatOpt,
            _ => DigitalMode::Unknown(val),
        }
    }
}

impl vstd::std_specs::convert::FromSpecImpl<u32> for DigitalMode {
    open spec fn obeys_from_spec() -> bool {
        true
    }

    open spec fn from_spec(val: u32) -> DigitalMode {
        digital_mode_of(val)
    }
}

impl From<DigitalMode> for u32 {
    fn from(mode: DigitalMode) -> (val: u32)
        ensures
            val == digital_mode_code(mode),
    {
        match mode {
            DigitalMode::SpdifCoax => 0,
            DigitalMode::AesebuXlr => 1,
            DigitalMode::SpdifOpt => 2,
            DigitalMode::AdatOpt => 3,
            DigitalMode::Unknown(val) => val,
        }
    }
}

impl vstd::std_specs::convert::FromSpecImpl<DigitalMode> for u32 {
    open spec fn obeys_from_spec() -> bool {
        true
    }

    open spec fn from_spec(mode: DigitalMode) -> u32 {
        digital_mode_code(mode)
    }
}

/// A quadlet is the code of the mode that it stands for.
pub proof fn digital_mode_round_trip(val: u32)
    ensures
        digital_mode_code(digital_mode_of(val)) == val,
{
}

/// The entry of a stream in a map that goes out: the physical port, or the
/// mark of a stream without one.
pub open spec fn map_entry(entry: Option<usize>) -> u32 {
    match entry {
        Some(port) => port as u32,
        None => MAP_ENTRY_DISABLE,
    }
}

/// The entries of one direction in a map that goes out: those of the
/// streams, then marks of no port up to the number of entries.
pub open spec fn map_entries(stream_map: Seq<Option<usize>>) -> Seq<u32> {
    Seq::new(
        MAP_ENTRY_COUNT as nat,
        |i: int|
            if i < stream_map.len() {
                map_entry(stream_map[i])
            } else {
                MAP_ENTRY_DISABLE
            },
    )
}

/// The quadlets of a stream map that goes out: the rate, a quadlet of
/// zero, then for the received streams and for the transmitted ones the
/// number of streams, the number of physical ports and the entries.
pub open spec fn stream_map_quads(
    rate: u32,
    phys_output_pair_count: usize,
    phys_input_pair_count: usize,
    rx_stream_map: Seq<Option<usize>>,
    tx_stream_map: Seq<Option<usize>>,
) -> Seq<u32> {
    seq![rate, 0u32, rx_stream_map.len() as u32, (phys_output_pair_count * 2) as u32]
        + map_entries(rx_stream_map) + seq![
        tx_stream_map.len() as u32,
        (phys_input_pair_count * 2) as u32,
    ] + map_entries(tx_stream_map)
}

/// Fills the quadlets of a stream map. Each direction holds less streams
/// than a map has entries, and the number of physical ports is twice the
/// number of pairs.
pub fn build_stream_map(
    quads: &mut [u32],
    rate: u32,
    phys_output_pair_count: usize,
    phys_input_pair_count: usize,
    rx_stream_map: &[Option<usize>],
    tx_stream_map: &[Option<usize>],
)
    requires
        old(quads)@.len() == MAP_SIZE,
        rx_stream_map@.len() < MAP_ENTRY_COUNT,
        tx_stream_map@.len() < MAP_ENTRY_COUNT,
        phys_output_pair_count * 2 <= usize::MAX,
        phys_input_pair_count * 2 <= usize::MAX,
    ensures
        final(quads)@ == stream_map_quads(
            rate,
            phys_output_pair_count,
            phys_input_pair_count,
            rx_stream_map@,
            tx_stream_map@,
        ),
{
    quads[0] = rate;
    quads[1] = 0;
    quads[2] = #[verifier::truncate] (rx_stream_map.len() as u32);
    quads[3] = #[verifier::truncate] ((phys_output_pair_count * 2) as u32);
    fill_map_entries(quads, 4, rx_stream_map);
    quads[36] = #[verifier::truncate] (tx_stream_map.len() as u32);
    quads[37] = #[verifier::truncate] ((phys_input_pair_count * 2) as u32);
    fill_map_entries(quads, 38, tx_stream_map);
    assert(quads@ =~= stream_map_quads(
        rate,
        phys_output_pair_count,
        phys_input_pair_count,
        rx_stream_map@,
        tx_stream_map@,
    ));
}

/// Writes the entries of one direction, beginning at `start`.
fn fill_map_entries(quads: &mut [u32], start: usize, stream_map: &[Option<usize>])
    requires
        old(quads)@.len() == MAP_SIZE,
        start + MAP_ENTRY_COUNT <= MAP_SIZE,
    ensures
        final(quads)@.len() == MAP_SIZE,
        forall|i: int|
            0 <= i < MAP_ENTRY_COUNT ==> final(quads)@[start + i] == map_entries(stream_map@)[i],
        forall|i: int|
            0 <= i < MAP_SIZE && !(start <= i < start + MAP_ENTRY_COUNT) ==> final(quads)@[i] == old(
                quads,
            )@[i],
{
    let mut i: usize = 0;
    while i < MAP_ENTRY_COUNT
        invariant
            i <= MAP_ENTRY_COUNT,
            quads@.len() == MAP_SIZE,
            start + MAP_ENTRY_COUNT <= MAP_SIZE,
            forall|k: int| 0 <= k < i ==> quads@[start + k] == map_entries(stream_map@)[k],
            forall|k: int|
                0 <= k < MAP_SIZE && !(start <= k < start + MAP_ENTRY_COUNT) ==> quads@[k] == old(
                    quads,
                )@[k],
        decreases MAP_ENTRY_COUNT - i,
    {
        let entry: u32 = if i < stream_map.len() {
            match stream_map[i] {
                Some(port) => #[verifier::truncate] (port as u32),
                None => MAP_ENTRY_DISABLE,
            }
        } else {
            MAP_ENTRY_DISABLE
        };
        quads[start + i] = entry;
        i = i + 1;
    }
}

/// The physical port pair of a stream in a map that came in: none where the
/// entry lies at or beyond the number of physical ports.
pub open spec fn stream_entry(val: u32, phys_count: u32) -> Option<usize> {
    if val < phys_count {
        Some((val / 2) as usize)
    } else {
        None
    }
}

/// A map of streams after a stream map came in: of the entries that begin
/// at `start`, as many as the map that came in counts are taken over, as
/// far as both the quadlets and the map reach; the rest stays.
pub open spec fn read_map(
    map: Seq<Option<usize>>,
    params: Seq<u32>,
    start: int,
    count: u32,
    phys_count: u32,
) -> Seq<Option<usize>> {
    Seq::new(
        map.len(),
        |i: int|
            if i < count && start + i < params.len() {
                stream_entry(params[start + i], phys_count)
            } else {
                map[i]
            },
    )
}

/// Takes the entries of one direction over from a stream map that came in.
fn read_map_entries(
    map: &mut [Option<usize>],
    params: &[u32],
    start: usize,
    count: u32,
    phys_count: u32,
)
    requires
        start <= params@.len(),
    ensures
        final(map)@ == read_map(old(map)@, params@, start as int, count, phys_count),
{
    let mut i: usize = 0;
    while i < map.len() && i < params.len() - start && i < count as usize
        invariant
            start <= params@.len(),
            map@.len() == old(map)@.len(),
            forall|k: int|
                0 <= k < i ==> map@[k] == stream_entry(params@[start + k], phys_count) && k < count
                    && start + k < params@.len(),
            forall|k: int| i <= k < map@.len() ==> map@[k] == old(map)@[k],
        decreases map@.len() - i,
    {
        let val = params[start + i];
        map[i] = if val < phys_count {
            Some((val / 2) as usize)
        } else {
            None
        };
        i = i + 1;
    }
    assert(map@ =~= read_map(old(map)@, params@, start as int, count, phys_count));
}

/// Protocol about port configuration for Fireworks board module: what each
/// command hands to the transaction, and how the parameters of its response
/// are read.
#[derive(Debug, Clone, Copy, Default)]
pub struct PortConfProtocol;

impl PortConfProtocol {
    /// The command that makes a pair of physical outputs the source of the
    /// control room, or the failure for a pair whose first port has no
    /// number.
    pub fn set_control_room_source(pair: usize) -> (cmd: Result<EfwCommand, Error>)
        ensures
            pair * 2 > usize::MAX ==> cmd is Err && cmd->Err_0 == Error::InvalidArgument(
                Argument::PortPair,
                pair,
            ),
            pair * 2 <= usize::MAX ==> cmd is Ok && cmd->Ok_0@ == (EfwCommandView {
                category: CATEGORY_PORT_CONF,
                command: CMD_SET_MIRROR,
                args: seq![(pair * 2) as u32],
                params_len: 0,
            }),
    {
        if pair > usize::MAX / 2 {
            return Err(Error::InvalidArgument(Argument::PortPair, pair));
        }
        let mut args: Vec<u32> = Vec::new();
        args.push(#[verifier::truncate] ((pair * 2) as u32));
        Ok(EfwCommand { category: CATEGORY_PORT_CONF, command: CMD_SET_MIRROR, args, params_len: 0 })
    }

    /// The command that asks for the source of the control room.
    pub fn get_control_room_source_command() -> (cmd: EfwCommand)
        ensures
            cmd@ == (EfwCommandView {
                category: CATEGORY_PORT_CONF,
                command: CMD_GET_MIRROR,
                args: Seq::<u32>::empty(),
                params_len: 1,
            }),
    {
        EfwCommand {
            category: CATEGORY_PORT_CONF,
            command: CMD_GET_MIRROR,
            args: Vec::new(),
            params_len: 1,
        }
    }

    /// The pair of physical outputs that the response names as source of
    /// the control room: half the number of its first port.
    pub fn get_control_room_source(params: &[u32]) -> (pair: Result<usize, Error>)
        ensures
            params@.len() < 1 ==> pair == Err::<usize, Error>(
                Error::RespParse(AvcRespParseError::TooShortResp(1)),
            ),
            params@.len() >= 1 ==> pair == Ok::<usize, Error>((params@[0] / 2) as usize),
    {
        if params.len() < 1 {
            return Err(Error::RespParse(AvcRespParseError::TooShortResp(1)));
        }
        Ok((params[0] / 2) as usize)
    }

    /// The command that sets the mode of the digital interface.
    pub fn set_digital_mode(mode: DigitalMode) -> (cmd: EfwCommand)
        ensures
            cmd@ == (EfwCommandView {
                category: CATEGORY_PORT_CONF,
                command: CMD_SET_DIG_MODE,
                args: seq![digital_mode_code(mode)],
                params_len: 0,
            }),
    {
        let mut args: Vec<u32> = Vec::new();
        args.push(u32::from(mode));
        EfwCommand { category: CATEGORY_PORT_CONF, command: CMD_SET_DIG_MODE, args, params_len: 0 }
    }

    /// The command that asks for the mode of the digital interface.
    pub fn get_digital_mode_command() -> (cmd: EfwCommand)
        ensures
            cmd@ == (EfwCommandView {
                category: CATEGORY_PORT_CONF,
                command: CMD_GET_DIG_MODE,
                args: Seq::<u32>::empty(),
                params_len: 1,
            }),
    {
        EfwCommand {
            category: CATEGORY_PORT_CONF,
            command: CMD_GET_DIG_MODE,
            args: Vec::new(),
            params_len: 1,
        }
    }

    /// The mode of the digital interface that the response names.
    pub fn get_digital_mode(params: &[u32]) -> (mode: Result<DigitalMode, Error>)
        ensures
            params@.len() < 1 ==> mode == Err::<DigitalMode, Error>(
                Error::RespParse(AvcRespParseError::TooShortResp(1)),
            ),
            params@.len() >= 1 ==> mode == Ok::<DigitalMode, Error>(digital_mode_of(params@[0])),
    {
        if params.len() < 1 {
            return Err(Error::RespParse(AvcRespParseError::TooShortResp(1)));
        }
        Ok(DigitalMode::from(params[0]))
    }

    /// The command that switches phantom powering.
    pub fn set_phantom_powering(state: bool) -> (cmd: EfwCommand)
        ensures
            cmd@ == (EfwCommandView {
                category: CATEGORY_PORT_CONF,
                command: CMD_SET_PHANTOM,
                args: seq![if state { 1u32 } else { 0u32 }],
                params_len: 0,
            }),
    {
        let mut args: Vec<u32> = Vec::new();
        args.push(if state { 1 } else { 0 });
        EfwCommand { category: CATEGORY_PORT_CONF, command: CMD_SET_PHANTOM, args, params_len: 0 }
    }

    /// The command that asks for phantom powering.
    pub fn get_phantom_powering_command() -> (cmd: EfwCommand)
        ensures
            cmd@ == (EfwCommandView {
                category: CATEGORY_PORT_CONF,
                command: CMD_GET_PHANTOM,
                args: Seq::<u32>::empty(),
                params_len: 1,
            }),
    {
        EfwCommand {
            category: CATEGORY_PORT_CONF,
            command: CMD_GET_PHANTOM,
            args: Vec::new(),
            params_len: 1,
        }
    }

    /// Whether the response reports phantom powering as switched on.
    pub fn get_phantom_powering(params: &[u32]) -> (state: Result<bool, Error>)
        ensures
            params@.len() < 1 ==> state == Err::<bool, Error>(
                Error::RespParse(AvcRespParseError::TooShortResp(1)),
            ),
            params@.len() >= 1 ==> state == Ok::<bool, Error>(params@[0] > 0),
    {
        if params.len() < 1 {
            return Err(Error::RespParse(AvcRespParseError::TooShortResp(1)));
        }
        Ok(params[0] > 0)
    }

    /// Why no stream map can be built from these arguments, if none can:
    /// a direction holds as many streams as a map has entries or more, or
    /// the number of physical ports of a direction cannot be computed.
    pub open spec fn stream_map_fault(
        phys_output_pair_count: usize,
        phys_input_pair_count: usize,
        rx_stream_map: Seq<Option<usize>>,
        tx_stream_map: Seq<Option<usize>>,
    ) -> Option<Error> {
        if rx_stream_map.len() >= MAP_ENTRY_COUNT {
            Some(Error::InvalidArgument(Argument::StreamMapLength, rx_stream_map.len() as usize))
        } else if tx_stream_map.len() >= MAP_ENTRY_COUNT {
            Some(Error::InvalidArgument(Argument::StreamMapLength, tx_stream_map.len() as usize))
        } else if phys_output_pair_count * 2 > usize::MAX {
            Some(Error::InvalidArgument(Argument::PortPairCount, phys_output_pair_count))
        } else if phys_input_pair_count * 2 > usize::MAX {
            Some(Error::InvalidArgument(Argument::PortPairCount, phys_input_pair_count))
        } else {
            None
        }
    }

    /// The command that sets the map between streams and physical ports for
    /// a sampling rate.
    pub fn set_stream_map(
        rate: u32,
        phys_output_pair_count: usize,
        phys_input_pair_count: usize,
        rx_stream_map: &[Option<usize>],
        tx_stream_map: &[Option<usize>],
    ) -> (cmd: Result<EfwCommand, Error>)
        ensures
            match PortConfProtocol::stream_map_fault(
                phys_output_pair_count,
                phys_input_pair_count,
                rx_stream_map@,
                tx_stream_map@,
            ) {
                Some(e) => cmd is Err && cmd->Err_0 == e,
                None => cmd is Ok && cmd->Ok_0@ == (EfwCommandView {
                    category: CATEGORY_PORT_CONF,
                    command: CMD_SET_STREAM_MAP,
                    args: stream_map_quads(
                        rate,
                        phys_output_pair_count,
                        phys_input_pair_count,
                        rx_stream_map@,
                        tx_stream_map@,
                    ),
                    params_len: 0,
                }),
            },
    {
        if rx_stream_map.len() >= MAP_ENTRY_COUNT {
            return Err(Error::InvalidArgument(Argument::StreamMapLength, rx_stream_map.len()));
        }
        if tx_stream_map.len() >= MAP_ENTRY_COUNT {
            return Err(Error::InvalidArgument(Argument::StreamMapLength, tx_stream_map.len()));
        }
        if phys_output_pair_count > usize::MAX / 2 {
            return Err(Error::InvalidArgument(Argument::PortPairCount, phys_output_pair_count));
        }
        if phys_input_pair_count > usize::MAX / 2 {
            return Err(Error::InvalidArgument(Argument::PortPairCount, phys_input_pair_count));
        }
        let mut args: Vec<u32> = vec![0; MAP_SIZE];
        build_stream_map(
            args.as_mut_slice(),
            rate,
            phys_output_pair_count,
            phys_input_pair_count,
            rx_stream_map,
            tx_stream_map,
        );
        Ok(
            EfwCommand {
                category: CATEGORY_PORT_CONF,
                command: CMD_SET_STREAM_MAP,
                args,
                params_len: 0,
            },
        )
    }

    /// The command that asks for the stream map of a sampling rate.
    pub fn get_stream_map_command(rate: u32) -> (cmd: EfwCommand)
        ensures
            cmd@ == (EfwCommandView {
                category: CATEGORY_PORT_CONF,
                command: CMD_GET_STREAM_MAP,
                args: seq![rate],
                params_len: MAP_SIZE,
            }),
    {
        let mut args: Vec<u32> = Vec::new();
        args.push(rate);
        EfwCommand {
            category: CATEGORY_PORT_CONF,
            command: CMD_GET_STREAM_MAP,
            args,
            params_len: MAP_SIZE,
        }
    }

    /// Why a stream map that came in is not read, if it is not: the number
    /// of physical ports of a direction has no 32 bit number, or the
    /// quadlets end before the entries of the transmitted streams begin.
    pub open spec fn read_map_fault(
        params: Seq<u32>,
        phys_output_pair_count: usize,
        phys_input_pair_count: usize,
    ) -> Option<Error> {
        if 2 * (phys_output_pair_count as u32) > u32::MAX {
            Some(Error::InvalidArgument(Argument::PortPairCount, phys_output_pair_count))
        } else if 2 * (phys_input_pair_count as u32) > u32::MAX {
            Some(Error::InvalidArgument(Argument::PortPairCount, phys_input_pair_count))
        } else if params.len() < 38 {
            Some(Error::RespParse(AvcRespParseError::TooShortResp(38)))
        } else {
            None
        }
    }

    /// Reads the stream map of a response into the maps of both directions.
    /// An entry is the pair of its physical port, and none where the port
    /// lies beyond the physical ports.
    pub fn get_stream_map(
        params: &[u32],
        phys_output_pair_count: usize,
        phys_input_pair_count: usize,
        rx_stream_map: &mut [Option<usize>],
        tx_stream_map: &mut [Option<usize>],
    ) -> (done: Result<(), Error>)
        ensures
            match PortConfProtocol::read_map_fault(
                params@,
                phys_output_pair_count,
                phys_input_pair_count,
            ) {
                Some(e) => done == Err::<(), Error>(e) && final(rx_stream_map)@ == old(
                    rx_stream_map,
                )@ && final(tx_stream_map)@ == old(tx_stream_map)@,
                None => done is Ok && final(rx_stream_map)@ == read_map(
                    old(rx_stream_map)@,
                    params@,
                    4,
                    params@[2],
                    (2 * (phys_output_pair_count as u32)) as u32,
                ) && final(tx_stream_map)@ == read_map(
                    old(tx_stream_map)@,
                    params@,
                    38,
                    params@[36],
                    (2 * (phys_input_pair_count as u32)) as u32,
                ),
            },
    {
        let output_pairs: u32 = #[verifier::truncate] (phys_output_pair_count as u32);
        let input_pairs: u32 = #[verifier::truncate] (phys_input_pair_count as u32);
        if output_pairs > u32::MAX / 2 {
            return Err(Error::InvalidArgument(Argument::PortPairCount, phys_output_pair_count));
        }
        if input_pairs > u32::MAX / 2 {
            return Err(Error::InvalidArgument(Argument::PortPairCount, phys_input_pair_count));
        }
        if params.len() < 38 {
            return Err(Error::RespParse(AvcRespParseError::TooShortResp(38)));
        }
        read_map_entries(rx_stream_map, params, 4, params[2], 2 * output_pairs);
        read_map_entries(tx_stream_map, params, 38, params[36], 2 * input_pairs);
        Ok(())
    }
}

} // verus!
