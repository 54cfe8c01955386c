use firewire_ctl::audio::{AudioCh, AudioFeature, CtlAttr, FeatureCtl};
use firewire_ctl::bebob_avc::{response_accepted, BebobAvc};
use firewire_ctl::clock::{ClkFreqStep, MediaClockFrequencyOperation, SamplingClockSourceOperation};
use firewire_ctl::error::{Argument, AvcCmdBuildError, AvcRespParseError, Error, FileError};
use firewire_ctl::frame::{audio_subunit_0, AvcAddr, AvcAddrSubunit, AvcCmdType, AvcRespCode};
use firewire_ctl::level::{
    AvcLevelOperation, AvcLrBalanceOperation, AvcMuteOperation, BALANCE_MAX, BALANCE_MIN,
    BALANCE_STEP, LEVEL_MAX, LEVEL_MIN, LEVEL_STEP,
};
use firewire_ctl::operation::AvcOperation;
use firewire_ctl::plug_signal::PlugSignalFormat;
use firewire_ctl::selector::AvcSelectorOperation;
use firewire_ctl::signal_source::{SignalAddr, SignalSource, SignalSubunitAddr, SignalUnitAddr};
use std::collections::HashMap;

/// A device that keeps what control commands set and reports it to status
/// commands.
struct Device {
    transactions: usize,
    reserved_code: bool,
    freq: u32,
    sources: HashMap<[u8; 2], [u8; 2]>,
    features: HashMap<Vec<u8>, Vec<u8>>,
    selectors: HashMap<u8, u8>,
    log: Vec<Vec<u8>>,
}

impl Device {
    fn new() -> Self {
        Device {
            transactions: 0,
            reserved_code: false,
            freq: 44100,
            sources: HashMap::new(),
            features: HashMap::new(),
            selectors: HashMap::new(),
            log: Vec::new(),
        }
    }

    fn respond(&self, code: u8, frame: &[u8], operands: &[u8]) -> Vec<u8> {
        let mut response = vec![code, frame[1], frame[2]];
        response.extend_from_slice(operands);
        response
    }

    fn transaction(&mut self, frame: &[u8]) -> Vec<u8> {
        self.transactions += 1;
        self.log.push(frame.to_vec());
        let operands = &frame[3..];
        let accepted = if self.reserved_code { 0x00 } else { 0x09 };
        match (frame[0], frame[2]) {
            (0x00, 0x19) | (0x00, 0x18) => {
                self.freq = match operands[2] & 0x07 {
                    0 => 32000,
                    1 => 44100,
                    2 => 48000,
                    3 => 88200,
                    4 => 96000,
                    5 => 176400,
                    6 => 192000,
                    _ => 0,
                };
                self.respond(accepted, frame, operands)
            }
            (0x01, 0xbf) => {
                let stream = ta1394_avc_stream_format::CompoundAm824Stream {
                    freq: self.freq,
                    sync_src: false,
                    rate_ctl: ta1394_avc_stream_format::RateCtl::Supported,
                    entries: vec![ta1394_avc_stream_format::CompoundAm824StreamEntry {
                        count: 2,
                        format:
                            ta1394_avc_stream_format::CompoundAm824StreamFormat::MultiBitLinearAudioRaw,
                    }],
                };
                let format = ta1394_avc_stream_format::StreamFormat::Am(
                    ta1394_avc_stream_format::AmStream::CompoundAm824(stream),
                );
                let mut reported = operands[..6].to_vec();
                reported.push(0x00);
                reported.extend_from_slice(&Vec::<u8>::from(&format));
                self.respond(0x0c, frame, &reported)
            }
            (0x00, 0x1a) => {
                self.sources
                    .insert([operands[3], operands[4]], [operands[1], operands[2]]);
                self.respond(accepted, frame, operands)
            }
            (0x01, 0x1a) => {
                let dst = [operands[3], operands[4]];
                let src = self.sources.get(&dst).copied().unwrap_or([0xff, 0x00]);
                self.respond(0x0c, frame, &[0xff, src[0], src[1], dst[0], dst[1]])
            }
            (0x00, 0xb8) if operands[0] == 0x81 => {
                self.features
                    .insert(operands[..6].to_vec(), operands.to_vec());
                self.respond(0x09, frame, operands)
            }
            (0x01, 0xb8) if operands[0] == 0x81 => {
                match self.features.get(&operands[..6]) {
                    Some(stored) => self.respond(0x0c, frame, stored),
                    None => self.respond(0x0c, frame, operands),
                }
            }
            (0x00, 0xb8) => {
                self.selectors.insert(operands[1], operands[4]);
                self.respond(0x09, frame, operands)
            }
            (0x01, 0xb8) => {
                let plug = self.selectors.get(&operands[1]).copied().unwrap_or(0x00);
                self.respond(0x0c, frame, &[0x80, operands[1], 0x10, 0x02, plug, 0x01])
            }
            _ => self.respond(0x08, frame, operands),
        }
    }
}

fn write_freq(
    op: &MediaClockFrequencyOperation,
    device: &mut Device,
    idx: usize,
) -> Result<(), Error> {
    let mut step = ClkFreqStep::InputPlug;
    loop {
        let frame = op.write_clk_freq_command(idx, step)?;
        let response = device.transaction(&frame);
        match op.write_clk_freq(idx, step, &response)? {
            Some(next) => step = next,
            None => return Ok(()),
        }
    }
}

fn read_freq(op: &MediaClockFrequencyOperation, device: &mut Device) -> Result<usize, Error> {
    let frame = op.read_clk_freq_command()?;
    let response = device.transaction(&frame);
    op.read_clk_freq(&response)
}

#[test]
fn frequency_of_device_is_found_in_list() {
    let op = MediaClockFrequencyOperation::new(vec![32000, 44100, 48000]);
    let mut device = Device::new();
    device.freq = 44100;
    assert_eq!(read_freq(&op, &mut device), Ok(1));
    assert_eq!(device.transactions, 1);
    assert_eq!(
        device.log[0],
        vec![0x01, 0xff, 0xbf, 0xc0, 0x01, 0x00, 0x00, 0x00, 0xff, 0xff]
    );
}

#[test]
fn frequency_is_set_at_input_plug_then_output_plug() {
    let op = MediaClockFrequencyOperation::new(vec![32000, 44100, 48000]);
    let mut device = Device::new();
    assert_eq!(write_freq(&op, &mut device, 2), Ok(()));
    assert_eq!(device.transactions, 2);
    assert_eq!(
        device.log[0],
        vec![0x00, 0xff, 0x19, 0x00, 0x90, 0x02, 0xff, 0xff]
    );
    assert_eq!(
        device.log[1],
        vec![0x00, 0xff, 0x18, 0x00, 0x90, 0x02, 0xff, 0xff]
    );
    assert_eq!(device.freq, 48000);
}

#[test]
fn frequency_that_was_written_is_read() {
    let list = vec![32000, 44100, 48000, 88200, 96000, 176400, 192000];
    let op = MediaClockFrequencyOperation::new(list.clone());
    let mut device = Device::new();
    for idx in 0..list.len() {
        assert_eq!(write_freq(&op, &mut device, idx), Ok(()));
        assert_eq!(device.freq, list[idx]);
        assert_eq!(read_freq(&op, &mut device), Ok(idx));
    }
}

#[test]
fn frequency_outside_list_is_reported() {
    let op = MediaClockFrequencyOperation::new(vec![32000, 44100, 48000]);
    let mut device = Device::new();
    device.freq = 96000;
    let outcome = read_freq(&op, &mut device);
    assert_eq!(outcome, Err(Error::UnexpectedFrequency(96000)));
    assert_eq!(outcome.unwrap_err().kind(), Some(FileError::Io));
}

#[test]
fn frequency_is_found_at_first_place() {
    let op = MediaClockFrequencyOperation::new(vec![48000, 44100, 48000]);
    let mut device = Device::new();
    device.freq = 48000;
    assert_eq!(read_freq(&op, &mut device), Ok(0));
}

#[test]
fn frequency_from_empty_list() {
    let op = MediaClockFrequencyOperation::new(vec![]);
    let mut device = Device::new();
    assert_eq!(
        read_freq(&op, &mut device),
        Err(Error::UnexpectedFrequency(44100))
    );
    assert_eq!(
        write_freq(&op, &mut device, 0),
        Err(Error::InvalidArgument(Argument::Frequency, 0))
    );
}

#[test]
fn stream_without_frequency_is_reported() {
    let op = MediaClockFrequencyOperation::new(vec![32000, 44100, 48000]);
    let response = [
        0x0c, 0xff, 0xbf, 0xc0, 0x01, 0x00, 0x00, 0x00, 0xff, 0x00, 0x90, 0x00, 0x06, 0xff, 0x20,
        0x00,
    ];
    let outcome = op.read_clk_freq(&response);
    assert_eq!(outcome, Err(Error::StreamFormatUnavailable));
    assert_eq!(outcome.unwrap_err().kind(), Some(FileError::Nxio));
}

#[test]
fn write_of_frequency_outside_list_sends_nothing() {
    let op = MediaClockFrequencyOperation::new(vec![32000, 44100, 48000]);
    let mut device = Device::new();
    for idx in [3usize, 4, 100, usize::MAX] {
        let outcome = write_freq(&op, &mut device, idx);
        assert_eq!(outcome, Err(Error::InvalidArgument(Argument::Frequency, idx)));
        assert_eq!(outcome.unwrap_err().kind(), Some(FileError::Inval));
        assert_eq!(
            op.write_clk_freq_command(idx, ClkFreqStep::OutputPlug),
            Err(Error::InvalidArgument(Argument::Frequency, idx))
        );
        assert_eq!(
            op.write_clk_freq(idx, ClkFreqStep::InputPlug, &[0x09, 0xff, 0x19, 0, 0, 0, 0, 0]),
            Err(Error::InvalidArgument(Argument::Frequency, idx))
        );
    }
    assert_eq!(device.transactions, 0);
}

#[test]
fn rejected_input_plug_ends_change_of_frequency() {
    let op = MediaClockFrequencyOperation::new(vec![32000, 44100, 48000]);
    let frame = op.write_clk_freq_command(0, ClkFreqStep::InputPlug).unwrap();
    let mut response = frame.clone();
    response[0] = 0x0a;
    assert_eq!(
        op.write_clk_freq(0, ClkFreqStep::InputPlug, &response),
        Err(Error::RespParse(AvcRespParseError::UnexpectedStatus))
    );
    response[0] = 0x09;
    assert_eq!(
        op.write_clk_freq(0, ClkFreqStep::InputPlug, &response),
        Ok(Some(ClkFreqStep::OutputPlug))
    );
    assert_eq!(
        op.write_clk_freq(0, ClkFreqStep::OutputPlug, &response),
        Err(Error::RespParse(AvcRespParseError::UnexpectedOpcode))
    );
    response[2] = 0x18;
    assert_eq!(op.write_clk_freq(0, ClkFreqStep::OutputPlug, &response), Ok(None));
}

#[test]
fn reserved_code_zero_confirms_change_of_frequency() {
    let op = MediaClockFrequencyOperation::new(vec![32000, 44100, 48000]);
    let mut device = Device::new();
    device.reserved_code = true;
    assert_eq!(write_freq(&op, &mut device, 0), Ok(()));
    assert_eq!(device.transactions, 2);
    assert_eq!(device.freq, 32000);
}

fn sources() -> Vec<SignalAddr> {
    vec![
        SignalAddr::Subunit(SignalSubunitAddr {
            subunit: AvcAddrSubunit {
                subunit_type: 0x0c,
                subunit_id: 0,
            },
            plug_id: 0x01,
        }),
        SignalAddr::Unit(SignalUnitAddr::Ext(0x04)),
        SignalAddr::Unit(SignalUnitAddr::Isoc(0x00)),
    ]
}

fn clock_destination() -> SignalAddr {
    SignalAddr::Subunit(SignalSubunitAddr {
        subunit: AvcAddrSubunit {
            subunit_type: 0x0c,
            subunit_id: 0,
        },
        plug_id: 0x05,
    })
}

fn write_src(
    op: &SamplingClockSourceOperation,
    device: &mut Device,
    idx: usize,
) -> Result<(), Error> {
    let frame = op.write_clk_src_command(idx)?;
    let response = device.transaction(&frame);
    op.write_clk_src(idx, &response)
}

fn read_src(op: &SamplingClockSourceOperation, device: &mut Device) -> Result<usize, Error> {
    let frame = op.read_clk_src_command()?;
    let response = device.transaction(&frame);
    op.read_clk_src(&response)
}

#[test]
fn clock_source_that_was_written_is_read() {
    let op = SamplingClockSourceOperation::new(clock_destination(), sources());
    let mut device = Device::new();
    for idx in [2usize, 0, 1, 1, 0] {
        assert_eq!(write_src(&op, &mut device, idx), Ok(()));
        assert_eq!(read_src(&op, &mut device), Ok(idx));
    }
}

#[test]
fn clock_source_commands() {
    let op = SamplingClockSourceOperation::new(clock_destination(), sources());
    assert_eq!(
        op.read_clk_src_command(),
        Ok(vec![0x01, 0xff, 0x1a, 0xff, 0xff, 0xfe, 0x60, 0x05])
    );
    assert_eq!(
        op.write_clk_src_command(1),
        Ok(vec![0x00, 0xff, 0x1a, 0xff, 0xff, 0x84, 0x60, 0x05])
    );
    assert_eq!(
        op.write_clk_src_command(0),
        Ok(vec![0x00, 0xff, 0x1a, 0xff, 0x60, 0x01, 0x60, 0x05])
    );
}

#[test]
fn clock_source_outside_list_is_reported() {
    let op = SamplingClockSourceOperation::new(clock_destination(), sources());
    let mut device = Device::new();
    let outcome = read_src(&op, &mut device);
    assert_eq!(outcome, Ok(2));
    device.sources.insert([0x60, 0x05], [0xff, 0x09]);
    let outcome = read_src(&op, &mut device);
    assert_eq!(outcome, Err(Error::UnexpectedClockSource));
    assert_eq!(outcome.unwrap_err().kind(), Some(FileError::Io));
}

#[test]
fn write_of_clock_source_outside_list_sends_nothing() {
    let op = SamplingClockSourceOperation::new(clock_destination(), sources());
    let mut device = Device::new();
    for idx in [3usize, 17, usize::MAX] {
        assert_eq!(
            write_src(&op, &mut device, idx),
            Err(Error::InvalidArgument(Argument::ClockSource, idx))
        );
        assert_eq!(
            op.write_clk_src(idx, &[0x09, 0xff, 0x1a, 0xff, 0xff, 0x00, 0x60, 0x05]),
            Err(Error::InvalidArgument(Argument::ClockSource, idx))
        );
    }
    assert_eq!(device.transactions, 0);
}

#[test]
fn reserved_code_zero_confirms_clock_source() {
    let op = SamplingClockSourceOperation::new(clock_destination(), sources());
    let mut device = Device::new();
    device.reserved_code = true;
    assert_eq!(write_src(&op, &mut device, 1), Ok(()));
    assert_eq!(read_src(&op, &mut device), Ok(1));
}

#[test]
fn status_needs_implemented_stable() {
    let op = SamplingClockSourceOperation::new(clock_destination(), sources());
    for code in 0..=255u8 {
        let response = [code, 0xff, 0x1a, 0xff, 0xff, 0x84, 0x60, 0x05];
        let outcome = op.read_clk_src(&response);
        if code & 0x0f == 0x0c {
            assert_eq!(outcome, Ok(1));
        } else {
            assert_eq!(
                outcome,
                Err(Error::RespParse(AvcRespParseError::UnexpectedStatus))
            );
        }
    }
}

fn entries() -> Vec<(u8, AudioCh)> {
    vec![
        (0x01, AudioCh::Each(0)),
        (0x01, AudioCh::Each(1)),
        (0x02, AudioCh::All),
        (0x03, AudioCh::Each(254)),
    ]
}

fn write_level(
    op: &AvcLevelOperation,
    device: &mut Device,
    idx: usize,
    vol: i16,
) -> Result<(), Error> {
    let frame = op.write_level_command(idx, vol)?;
    let response = device.transaction(&frame);
    op.write_level(idx, vol, &response)
}

fn read_level(op: &AvcLevelOperation, device: &mut Device, idx: usize) -> Result<i16, Error> {
    let frame = op.read_level_command(idx)?;
    let response = device.transaction(&frame);
    op.read_level(idx, &response)
}

#[test]
fn level_constants() {
    assert_eq!(LEVEL_MIN, -32768);
    assert_eq!(LEVEL_MAX, 0);
    assert_eq!(LEVEL_STEP, 0x100);
    assert_eq!(BALANCE_MIN, -32768);
    assert_eq!(BALANCE_MAX, 0x7ffe);
    assert_eq!(BALANCE_STEP, 0x80);
}

#[test]
fn level_commands() {
    let op = AvcLevelOperation::new(entries());
    assert_eq!(
        op.read_level_command(1),
        Ok(vec![0x01, 0x08, 0xb8, 0x81, 0x01, 0x10, 0x02, 0x02, 0x02, 0x02, 0xff, 0xff])
    );
    assert_eq!(
        op.write_level_command(2, -0x300),
        Ok(vec![0x00, 0x08, 0xb8, 0x81, 0x02, 0x10, 0x02, 0x00, 0x02, 0x02, 0xfd, 0x00])
    );
}

#[test]
fn level_that_was_written_is_read() {
    let op = AvcLevelOperation::new(entries());
    let mut device = Device::new();
    let vols = [LEVEL_MIN, -0x7f00, -0x100, -1, LEVEL_MAX, 1, 0x100, i16::MAX];
    for idx in 0..entries().len() {
        for vol in vols {
            assert_eq!(write_level(&op, &mut device, idx, vol), Ok(()));
            assert_eq!(read_level(&op, &mut device, idx), Ok(vol));
        }
    }
    assert_eq!(write_level(&op, &mut device, 0, -0x200), Ok(()));
    assert_eq!(write_level(&op, &mut device, 1, -0x400), Ok(()));
    assert_eq!(read_level(&op, &mut device, 0), Ok(-0x200));
    assert_eq!(read_level(&op, &mut device, 1), Ok(-0x400));
}

#[test]
fn level_beyond_its_range_goes_out_as_given() {
    let op = AvcLevelOperation::new(entries());
    assert!(0x0123 > LEVEL_MAX);
    assert_eq!(
        op.write_level_command(0, 0x0123),
        Ok(vec![0x00, 0x08, 0xb8, 0x81, 0x01, 0x10, 0x02, 0x01, 0x02, 0x02, 0x01, 0x23])
    );
    assert_eq!(
        op.write_level_command(0, i16::MAX),
        Ok(vec![0x00, 0x08, 0xb8, 0x81, 0x01, 0x10, 0x02, 0x01, 0x02, 0x02, 0x7f, 0xff])
    );
    assert_eq!(
        op.write_level_command(0, LEVEL_MIN),
        Ok(vec![0x00, 0x08, 0xb8, 0x81, 0x01, 0x10, 0x02, 0x01, 0x02, 0x02, 0x80, 0x00])
    );
    let rejected = [0x0a, 0x08, 0xb8, 0x81, 0x01, 0x10, 0x02, 0x01, 0x02, 0x02, 0x01, 0x23];
    let outcome = op.write_level(0, 0x0123, &rejected);
    assert_eq!(
        outcome,
        Err(Error::RespParse(AvcRespParseError::UnexpectedStatus))
    );
    assert_eq!(outcome.unwrap_err().kind(), Some(FileError::Io));
}

#[test]
fn level_outside_table_sends_nothing() {
    let op = AvcLevelOperation::new(entries());
    let mut device = Device::new();
    for idx in [4usize, 5, usize::MAX] {
        let fault = Error::InvalidArgument(Argument::FunctionBlock, idx);
        assert_eq!(write_level(&op, &mut device, idx, 0), Err(fault));
        assert_eq!(read_level(&op, &mut device, idx), Err(fault));
        assert_eq!(op.read_level(idx, &[0x0c, 0x08, 0xb8]), Err(fault));
        assert_eq!(op.write_level(idx, 0, &[0x09, 0x08, 0xb8]), Err(fault));
    }
    assert_eq!(device.transactions, 0);
}

#[test]
fn level_of_channel_without_encoding_is_not_built() {
    let op = AvcLevelOperation::new(vec![(0x01, AudioCh::Each(255))]);
    assert_eq!(
        op.write_level_command(0, 0),
        Err(Error::CmdBuild(AvcCmdBuildError::InvalidOperands))
    );
    assert_eq!(
        op.read_level_command(0),
        Err(Error::CmdBuild(AvcCmdBuildError::InvalidOperands))
    );
    assert_eq!(
        Error::CmdBuild(AvcCmdBuildError::InvalidOperands).kind(),
        Some(FileError::Inval)
    );
}

#[test]
fn level_response_with_other_control_is_turned_down() {
    let op = AvcLevelOperation::new(entries());
    let response = [0x0c, 0x08, 0xb8, 0x81, 0x01, 0x10, 0x02, 0x01, 0x03, 0x02, 0x00, 0x00];
    assert_eq!(
        op.read_level(0, &response),
        Err(Error::RespParse(AvcRespParseError::UnexpectedOperands(5)))
    );
    let response = [0x0c, 0x08, 0xb8, 0x81, 0x01, 0x10, 0x02, 0x01, 0x02];
    assert_eq!(
        op.read_level(0, &response),
        Err(Error::RespParse(AvcRespParseError::TooShortResp(9)))
    );
}

#[test]
fn balance_that_was_written_is_read() {
    let op = AvcLrBalanceOperation::new(AvcLevelOperation::new(entries()));
    let mut device = Device::new();
    for idx in 0..entries().len() {
        for balance in [BALANCE_MIN, -0x80, 0, 0x80, BALANCE_MAX, i16::MAX] {
            let frame = op.write_lr_balance_command(idx, balance).unwrap();
            let response = device.transaction(&frame);
            assert_eq!(op.write_lr_balance(idx, balance, &response), Ok(()));
            let frame = op.read_lr_balance_command(idx).unwrap();
            let response = device.transaction(&frame);
            assert_eq!(op.read_lr_balance(idx, &response), Ok(balance));
        }
    }
}

#[test]
fn balance_commands() {
    let op = AvcLrBalanceOperation::new(AvcLevelOperation::new(entries()));
    assert_eq!(
        op.read_lr_balance_command(0),
        Ok(vec![0x01, 0x08, 0xb8, 0x81, 0x01, 0x10, 0x02, 0x01, 0x03, 0x02, 0xff, 0xff])
    );
    assert_eq!(
        op.write_lr_balance_command(3, 0x80),
        Ok(vec![0x00, 0x08, 0xb8, 0x81, 0x03, 0x10, 0x02, 0xff, 0x03, 0x02, 0x00, 0x80])
    );
}

#[test]
fn balance_outside_table_sends_nothing() {
    let op = AvcLrBalanceOperation::new(AvcLevelOperation::new(entries()));
    let fault = Error::InvalidArgument(Argument::FunctionBlock, 4);
    assert_eq!(op.write_lr_balance_command(4, 0), Err(fault));
    assert_eq!(op.read_lr_balance_command(4), Err(fault));
    assert_eq!(op.write_lr_balance(4, 0, &[0x09, 0x08, 0xb8]), Err(fault));
    assert_eq!(op.read_lr_balance(4, &[0x0c, 0x08, 0xb8]), Err(fault));
}

#[test]
fn mute_that_was_written_is_read() {
    let op = AvcMuteOperation::new(AvcLevelOperation::new(entries()));
    let mut device = Device::new();
    for idx in 0..entries().len() {
        for mute in [true, false, true] {
            let frame = op.write_mute_command(idx, mute).unwrap();
            let response = device.transaction(&frame);
            assert_eq!(op.write_mute(idx, mute, &response), Ok(()));
            let frame = op.read_mute_command(idx).unwrap();
            let response = device.transaction(&frame);
            assert_eq!(op.read_mute(idx, &response), Ok(mute));
        }
    }
}

#[test]
fn mute_commands() {
    let op = AvcMuteOperation::new(AvcLevelOperation::new(entries()));
    assert_eq!(
        op.read_mute_command(2),
        Ok(vec![0x01, 0x08, 0xb8, 0x81, 0x02, 0x10, 0x02, 0x00, 0x01, 0x01, 0x60])
    );
    assert_eq!(
        op.write_mute_command(2, true),
        Ok(vec![0x00, 0x08, 0xb8, 0x81, 0x02, 0x10, 0x02, 0x00, 0x01, 0x01, 0x70])
    );
}

#[test]
fn mute_outside_table_sends_nothing() {
    let op = AvcMuteOperation::new(AvcLevelOperation::new(entries()));
    let fault = Error::InvalidArgument(Argument::FunctionBlock, 9);
    assert_eq!(op.write_mute_command(9, true), Err(fault));
    assert_eq!(op.read_mute_command(9), Err(fault));
    assert_eq!(op.write_mute(9, true, &[0x09, 0x08, 0xb8]), Err(fault));
    assert_eq!(op.read_mute(9, &[0x0c, 0x08, 0xb8]), Err(fault));
}

fn read_selector(
    op: &AvcSelectorOperation,
    device: &mut Device,
    idx: usize,
) -> Result<usize, Error> {
    let frame = op.read_selector_command(idx)?;
    let response = device.transaction(&frame);
    op.read_selector(idx, &response)
}

fn write_selector(
    op: &AvcSelectorOperation,
    device: &mut Device,
    idx: usize,
    val: usize,
) -> Result<(), Error> {
    let frame = op.write_selector_command(idx, val)?;
    let response = device.transaction(&frame);
    op.write_selector(idx, val, &response)
}

#[test]
fn selected_input_is_found_in_list() {
    let op = AvcSelectorOperation::new(vec![0x01], vec![0x00, 0x02, 0x05]);
    let mut device = Device::new();
    device.selectors.insert(0x01, 0x02);
    assert_eq!(read_selector(&op, &mut device, 0), Ok(1));
    assert_eq!(
        device.log[0],
        vec![0x01, 0x08, 0xb8, 0x80, 0x01, 0x10, 0x02, 0xff, 0x01]
    );
}

#[test]
fn selector_that_was_written_is_read() {
    let op = AvcSelectorOperation::new(vec![0x01, 0x04], vec![0x00, 0x02, 0x05]);
    let mut device = Device::new();
    for idx in 0..2 {
        for val in [2usize, 0, 1] {
            assert_eq!(write_selector(&op, &mut device, idx, val), Ok(()));
            assert_eq!(read_selector(&op, &mut device, idx), Ok(val));
        }
    }
    assert_eq!(write_selector(&op, &mut device, 0, 2), Ok(()));
    assert_eq!(read_selector(&op, &mut device, 1), Ok(1));
    assert_eq!(
        op.write_selector_command(1, 2),
        Ok(vec![0x00, 0x08, 0xb8, 0x80, 0x04, 0x10, 0x02, 0x05, 0x01])
    );
}

#[test]
fn input_outside_list_is_reported() {
    let op = AvcSelectorOperation::new(vec![0x01], vec![0x00, 0x02, 0x05]);
    let mut device = Device::new();
    device.selectors.insert(0x01, 0x03);
    let outcome = read_selector(&op, &mut device, 0);
    assert_eq!(outcome, Err(Error::UnexpectedInputPlug(0x03)));
    assert_eq!(outcome.unwrap_err().kind(), Some(FileError::Io));
}

#[test]
fn selector_outside_lists_sends_nothing() {
    let op = AvcSelectorOperation::new(vec![0x01], vec![0x00, 0x02, 0x05]);
    let mut device = Device::new();
    assert_eq!(
        read_selector(&op, &mut device, 1),
        Err(Error::InvalidArgument(Argument::Selector, 1))
    );
    assert_eq!(
        write_selector(&op, &mut device, 1, 0),
        Err(Error::InvalidArgument(Argument::Selector, 1))
    );
    assert_eq!(
        write_selector(&op, &mut device, 0, 3),
        Err(Error::InvalidArgument(Argument::InputPlug, 3))
    );
    assert_eq!(
        write_selector(&op, &mut device, 7, 9),
        Err(Error::InvalidArgument(Argument::Selector, 7))
    );
    assert_eq!(
        op.write_selector(0, 3, &[0x09, 0x08, 0xb8, 0x80, 0x01, 0x10, 0x02, 0x00, 0x01]),
        Err(Error::InvalidArgument(Argument::InputPlug, 3))
    );
    assert_eq!(
        op.read_selector(1, &[0x0c, 0x08, 0xb8, 0x80, 0x01, 0x10, 0x02, 0x00, 0x01]),
        Err(Error::InvalidArgument(Argument::Selector, 1))
    );
    assert_eq!(device.transactions, 0);
}

#[test]
fn reserved_code_zero_is_success_for_three_opcodes_only() {
    for opcode in 0..=255u8 {
        let quirk = opcode == 0x19 || opcode == 0x18 || opcode == 0x1a;
        assert_eq!(
            response_accepted(AvcCmdType::Control, opcode, AvcRespCode::Reserved(0x00)),
            quirk
        );
        assert!(response_accepted(
            AvcCmdType::Control,
            opcode,
            AvcRespCode::Accepted
        ));
        assert!(!response_accepted(
            AvcCmdType::Status,
            opcode,
            AvcRespCode::Reserved(0x00)
        ));
        assert!(!response_accepted(
            AvcCmdType::Control,
            opcode,
            AvcRespCode::Reserved(0x01)
        ));
        assert!(!response_accepted(
            AvcCmdType::Control,
            opcode,
            AvcRespCode::ImplementedStable
        ));
        assert!(response_accepted(
            AvcCmdType::Status,
            opcode,
            AvcRespCode::ImplementedStable
        ));
        assert!(!response_accepted(
            AvcCmdType::Status,
            opcode,
            AvcRespCode::Accepted
        ));
    }
}

#[test]
fn reserved_code_zero_fails_function_block_commands() {
    let addr = audio_subunit_0();
    let feature = AudioFeature {
        func_blk_id: 0x01,
        ctl_attr: CtlAttr::Current,
        audio_ch: AudioCh::Each(0),
        ctl: FeatureCtl::Volume(0x10),
    };
    let mut op = AvcOperation::AudioFeature(feature);
    let mut response = BebobAvc::control_command(&addr, &op).unwrap();
    response[0] = 0x00;
    assert_eq!(
        BebobAvc::control(&addr, &mut op, &response),
        Err(Error::RespParse(AvcRespParseError::UnexpectedStatus))
    );
    response[0] = 0x09;
    assert_eq!(BebobAvc::control(&addr, &mut op, &response), Ok(()));
    let level = AvcLevelOperation::new(vec![(0x01, AudioCh::Each(0))]);
    response[0] = 0x00;
    assert_eq!(
        level.write_level(0, 0x10, &response),
        Err(Error::RespParse(AvcRespParseError::UnexpectedStatus))
    );
    let selector = AvcSelectorOperation::new(vec![0x01], vec![0x00]);
    let mut response = selector.write_selector_command(0, 0).unwrap();
    response[0] = 0x00;
    assert_eq!(
        selector.write_selector(0, 0, &response),
        Err(Error::RespParse(AvcRespParseError::UnexpectedStatus))
    );
}

#[test]
fn reserved_code_zero_confirms_the_three_operations() {
    let unit = AvcAddr::Unit;
    let format = PlugSignalFormat::new_am824(0, 48000);
    let source = SignalSource {
        src: SignalAddr::Unit(SignalUnitAddr::Isoc(0)),
        dst: clock_destination(),
    };
    let ops = [
        AvcOperation::InputPlugSignalFormat(format),
        AvcOperation::OutputPlugSignalFormat(format),
        AvcOperation::SignalSource(source),
    ];
    for op in ops {
        let mut op = op;
        let mut response = BebobAvc::control_command(&unit, &op).unwrap();
        response[0] = 0x00;
        assert_eq!(BebobAvc::control(&unit, &mut op, &response), Ok(()));
        response[0] = 0x09;
        assert_eq!(BebobAvc::control(&unit, &mut op, &response), Ok(()));
        response[0] = 0x0a;
        assert_eq!(
            BebobAvc::control(&unit, &mut op, &response),
            Err(Error::RespParse(AvcRespParseError::UnexpectedStatus))
        );
        response[0] = 0x0c;
        assert_eq!(
            BebobAvc::control(&unit, &mut op, &response),
            Err(Error::RespParse(AvcRespParseError::UnexpectedStatus))
        );
    }
}

#[test]
fn transaction_updates_operation_from_response() {
    let addr = audio_subunit_0();
    let mut op = AvcOperation::AudioFeature(AudioFeature {
        func_blk_id: 0x01,
        ctl_attr: CtlAttr::Current,
        audio_ch: AudioCh::Each(0),
        ctl: FeatureCtl::Volume(-1),
    });
    let frame = BebobAvc::status_command(&addr, &op).unwrap();
    assert_eq!(
        frame,
        vec![0x01, 0x08, 0xb8, 0x81, 0x01, 0x10, 0x02, 0x01, 0x02, 0x02, 0xff, 0xff]
    );
    let response = [0x0c, 0x08, 0xb8, 0x81, 0x01, 0x10, 0x02, 0x01, 0x02, 0x02, 0xfe, 0x00];
    assert_eq!(BebobAvc::status(&addr, &mut op, &response), Ok(()));
    match op {
        AvcOperation::AudioFeature(feature) => {
            assert_eq!(feature.ctl, FeatureCtl::Volume(-512))
        }
        _ => unreachable!(),
    }
}

#[test]
fn transaction_failures_by_kind() {
    let feature = AudioFeature {
        func_blk_id: 0x01,
        ctl_attr: CtlAttr::Current,
        audio_ch: AudioCh::Each(0),
        ctl: FeatureCtl::Volume(-1),
    };
    let mut op = AvcOperation::AudioFeature(feature);
    assert_eq!(
        BebobAvc::status_command(&AvcAddr::Unit, &op),
        Err(Error::CmdBuild(AvcCmdBuildError::InvalidAddress))
    );
    let addr = audio_subunit_0();
    assert_eq!(
        BebobAvc::status(&addr, &mut op, &[0x0c, 0x08]),
        Err(Error::RespParse(AvcRespParseError::TooShortResp(3)))
    );
    assert_eq!(
        BebobAvc::status(&addr, &mut op, &[0x0c, 0xff, 0xb8, 0x81]),
        Err(Error::RespParse(AvcRespParseError::UnexpectedAddr))
    );
    assert_eq!(
        BebobAvc::status(&addr, &mut op, &[0x0c, 0x08, 0xb9, 0x81]),
        Err(Error::RespParse(AvcRespParseError::UnexpectedOpcode))
    );
    assert_eq!(
        BebobAvc::status(&addr, &mut op, &[0x09, 0x08, 0xb8, 0x81]),
        Err(Error::RespParse(AvcRespParseError::UnexpectedStatus))
    );
    assert_eq!(
        BebobAvc::status(&addr, &mut op, &[0x0c, 0x08, 0xb8, 0x81]),
        Err(Error::RespParse(AvcRespParseError::TooShortResp(4)))
    );
    match op {
        AvcOperation::AudioFeature(unchanged) => assert_eq!(unchanged, feature),
        _ => unreachable!(),
    }
}
