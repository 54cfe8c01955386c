use firewire_ctl::common_ctl::{
    candidate_rate, CommonCtl, DetectAction, DetectEvent, DetectPhase, Detection, FormatEntry,
    WriteStep, CLK_RATE_NAME, FORMAT_LIST_MAX,
};
use firewire_ctl::efw::meter_ctl::{HwInfo, HwMeter, MeterCtl};
use firewire_ctl::elem::{ElemIfaceType, ElemKind, ElemValue};
use firewire_ctl::error::{Argument, AvcRespParseError, Error, FileError};
use firewire_ctl::esi::{
    elem_to_level, level_to_elem, InputCtl, OutputCtl, CTL_VALUE_MUTE, INPUT_BALANCE_NAME,
    INPUT_GAIN_NAME, OUTPUT_VOL_NAME,
};
use firewire_ctl::plug_signal::PlugDirection;
use firewire_ctl::v3_ctls::{
    clk_src_to_label, ClkSrcAction, ClkSrcFailure, ClkSrcState, V3ClkCtl, V3ClkSrc,
};

#[test]
fn mute_value_matches_codec() {
    assert_eq!(CTL_VALUE_MUTE, alsa_ctl_tlv_codec::CTL_VALUE_MUTE);
    assert_eq!(CTL_VALUE_MUTE, -9999999);
}

#[test]
fn lowest_level_mutes() {
    assert_eq!(level_to_elem(i16::MIN), CTL_VALUE_MUTE);
    assert_eq!(level_to_elem(-32767), -32767);
    assert_eq!(level_to_elem(0), 0);
    assert_eq!(level_to_elem(i16::MAX), 32767);
    assert_eq!(elem_to_level(CTL_VALUE_MUTE), i16::MIN);
    assert_eq!(elem_to_level(-32768), i16::MIN);
    assert_eq!(elem_to_level(-1), -1);
    assert_eq!(elem_to_level(0x12345), 0x2345);
    assert_eq!(elem_to_level(32768), i16::MIN);
}

#[test]
fn every_level_is_the_level_of_its_element_value() {
    let mut vol = i16::MIN;
    loop {
        assert_eq!(elem_to_level(level_to_elem(vol)), vol);
        if vol == i16::MAX {
            break;
        }
        vol += 1;
    }
}

#[test]
fn quatafire_input_elements() {
    let elems = InputCtl.load();
    assert_eq!(elems.len(), 2);
    assert_eq!(elems[0].name, "input-gain");
    assert_eq!(elems[0].iface, ElemIfaceType::Mixer);
    assert_eq!(elems[0].elem_count, 1);
    assert_eq!(elems[0].value_count, 6);
    assert!(elems[0].unlock);
    match &elems[0].kind {
        ElemKind::Int(range) => {
            assert_eq!((range.min, range.max, range.step), (-32768, 0, 1));
            assert_eq!(range.tlv, Some(vec![4, 8, 0xffffce00, 0]));
        }
        _ => unreachable!(),
    }
    assert_eq!(elems[1].name, "input-pan");
    assert_eq!(elems[1].value_count, 2);
    match &elems[1].kind {
        ElemKind::Int(range) => {
            assert_eq!((range.min, range.max, range.step), (-32768, 0x7ffe, 1));
            assert_eq!(range.tlv, None);
        }
        _ => unreachable!(),
    }
}

#[test]
fn quatafire_input_gain_addresses_three_blocks() {
    let expected = [(1u8, 1u8), (1, 2), (2, 1), (2, 2), (3, 1), (3, 2)];
    for (idx, (block, ch)) in expected.iter().enumerate() {
        let frame = InputCtl.read_command(INPUT_GAIN_NAME, idx).unwrap().unwrap();
        assert_eq!(
            frame,
            vec![0x01, 0x08, 0xb8, 0x81, *block, 0x10, 0x02, *ch, 0x02, 0x02, 0xff, 0xff]
        );
    }
    assert_eq!(
        InputCtl.read_command(INPUT_GAIN_NAME, 6),
        Err(Error::InvalidArgument(Argument::ElemValue, 6))
    );
    assert_eq!(InputCtl.read_command("output-volume", 0), Ok(None));
}

#[test]
fn quatafire_input_gain_is_read_and_written() {
    let frame = InputCtl
        .write_command(INPUT_GAIN_NAME, 3, -0x100)
        .unwrap()
        .unwrap();
    assert_eq!(
        frame,
        vec![0x00, 0x08, 0xb8, 0x81, 0x02, 0x10, 0x02, 0x02, 0x02, 0x02, 0xff, 0x00]
    );
    let mut response = frame.clone();
    response[0] = 0x09;
    assert_eq!(
        InputCtl.write(INPUT_GAIN_NAME, 3, -0x100, &response),
        Ok(true)
    );
    response[0] = 0x0c;
    assert_eq!(
        InputCtl.read(INPUT_GAIN_NAME, 3, &response),
        Ok(Some(-0x100))
    );
    let frame = InputCtl
        .write_command(INPUT_GAIN_NAME, 0, CTL_VALUE_MUTE)
        .unwrap()
        .unwrap();
    assert_eq!(&frame[10..], &[0x80, 0x00]);
    let mut response = frame.clone();
    response[0] = 0x0c;
    assert_eq!(
        InputCtl.read(INPUT_GAIN_NAME, 0, &response),
        Ok(Some(CTL_VALUE_MUTE))
    );
    assert_eq!(InputCtl.read("output-volume", 0, &response), Ok(None));
    assert_eq!(InputCtl.write("output-volume", 0, 0, &response), Ok(false));
    response[0] = 0x0a;
    assert_eq!(
        InputCtl.read(INPUT_GAIN_NAME, 0, &response),
        Err(Error::RespParse(AvcRespParseError::UnexpectedStatus))
    );
}

#[test]
fn quatafire_input_balance() {
    let frame = InputCtl
        .write_command(INPUT_BALANCE_NAME, 1, 0x7ffe)
        .unwrap()
        .unwrap();
    assert_eq!(
        frame,
        vec![0x00, 0x08, 0xb8, 0x81, 0x01, 0x10, 0x02, 0x02, 0x03, 0x02, 0x7f, 0xfe]
    );
    let mut response = frame.clone();
    response[0] = 0x0c;
    assert_eq!(
        InputCtl.read(INPUT_BALANCE_NAME, 1, &response),
        Ok(Some(0x7ffe))
    );
    assert_eq!(
        InputCtl.write_command(INPUT_BALANCE_NAME, 2, 0),
        Err(Error::InvalidArgument(Argument::ElemValue, 2))
    );
    assert_eq!(
        InputCtl.read(INPUT_BALANCE_NAME, 2, &response),
        Err(Error::InvalidArgument(Argument::ElemValue, 2))
    );
    assert_eq!(
        InputCtl.write(INPUT_BALANCE_NAME, 2, 0, &response),
        Err(Error::InvalidArgument(Argument::ElemValue, 2))
    );
}

#[test]
fn quatafire_output_volume() {
    let elem = OutputCtl.load();
    assert_eq!(elem.name, "output-volume");
    assert_eq!(elem.value_count, 6);
    for idx in 0..8 {
        let frame = OutputCtl
            .read_command(OUTPUT_VOL_NAME, idx)
            .unwrap()
            .unwrap();
        assert_eq!(
            frame,
            vec![
                0x01,
                0x08,
                0xb8,
                0x81,
                0x04,
                0x10,
                0x02,
                idx as u8 + 1,
                0x02,
                0x02,
                0xff,
                0xff
            ]
        );
    }
    assert_eq!(
        OutputCtl.read_command(OUTPUT_VOL_NAME, 8),
        Err(Error::InvalidArgument(Argument::ElemValue, 8))
    );
    let frame = OutputCtl
        .write_command(OUTPUT_VOL_NAME, 7, -1)
        .unwrap()
        .unwrap();
    let mut response = frame.clone();
    response[0] = 0x09;
    assert_eq!(OutputCtl.write(OUTPUT_VOL_NAME, 7, -1, &response), Ok(true));
    response[0] = 0x0c;
    assert_eq!(OutputCtl.read(OUTPUT_VOL_NAME, 7, &response), Ok(Some(-1)));
    assert_eq!(OutputCtl.read(INPUT_GAIN_NAME, 7, &response), Ok(None));
    assert_eq!(OutputCtl.write_command(INPUT_GAIN_NAME, 7, 0), Ok(None));
    assert_eq!(OutputCtl.write(INPUT_GAIN_NAME, 7, 0, &response), Ok(false));
}

fn hwinfo() -> HwInfo {
    HwInfo {
        clk_src_count: 3,
        mixer_captures: 4,
        mixer_playbacks: 2,
        midi_inputs: 1,
        midi_outputs: 2,
        robot_guitar: false,
        guitar_charging: false,
    }
}

fn names(ctl: &mut MeterCtl, hwinfo: &HwInfo) -> Vec<&'static str> {
    ctl.load(hwinfo).iter().map(|elem| elem.name).collect()
}

#[test]
fn meter_elements_follow_hardware() {
    let mut ctl = MeterCtl::new();
    assert_eq!(
        names(&mut ctl, &hwinfo()),
        vec![
            "clock-detect",
            "midi-in-detect",
            "midi-out-detect",
            "input-meter",
            "output-meter"
        ]
    );
    let mut info = hwinfo();
    info.midi_inputs = 0;
    info.midi_outputs = 0;
    info.robot_guitar = true;
    info.guitar_charging = true;
    assert_eq!(
        names(&mut ctl, &info),
        vec![
            "clock-detect",
            "input-meter",
            "output-meter",
            "guitar-stereo-detect",
            "guitar-hex-signal-detect",
            "guitar-charge-state-detect"
        ]
    );
    let elems = ctl.load(&info);
    assert!(elems.iter().all(|elem| !elem.unlock));
    assert_eq!(elems[0].value_count, 3);
    assert_eq!(elems[1].value_count, 4);
    assert_eq!(elems[2].value_count, 2);
    assert_eq!(elems[3].iface, ElemIfaceType::Card);
    match &elems[1].kind {
        ElemKind::Int(range) => {
            assert_eq!((range.min, range.max, range.step), (0, 0x7fffff, 1));
            assert!(range.tlv.is_none());
        }
        _ => unreachable!(),
    }
}

#[test]
fn meters_need_to_be_prepared() {
    let mut ctl = MeterCtl::new();
    assert!(ctl.monitor_elems("clock-detect").is_none());
    let read = HwMeter {
        detected_clk_srcs: vec![true],
        detected_midi_inputs: [false; 2],
        detected_midi_outputs: [false; 2],
        guitar_charging: false,
        guitar_stereo_connect: false,
        guitar_hex_signal: false,
        phys_output_meters: vec![],
        phys_input_meters: vec![],
    };
    let outcome = ctl.monitor_unit(read);
    assert_eq!(outcome, Err(Error::MeteringNotPrepared));
    assert_eq!(outcome.unwrap_err().kind(), Some(FileError::Nxio));
    assert!(ctl.meters.is_none());
}

#[test]
fn meters_show_what_was_read() {
    let mut ctl = MeterCtl::new();
    let mut info = hwinfo();
    info.robot_guitar = true;
    info.guitar_charging = true;
    ctl.load(&info);
    match ctl.monitor_elems("clock-detect") {
        Some(ElemValue::Bool(vals)) => assert_eq!(vals, vec![false; 3]),
        _ => unreachable!(),
    }
    match ctl.monitor_elems("input-meter") {
        Some(ElemValue::Int(vals)) => assert_eq!(vals, vec![0; 4]),
        _ => unreachable!(),
    }
    let read = HwMeter {
        detected_clk_srcs: vec![true, false, true],
        detected_midi_inputs: [true, false],
        detected_midi_outputs: [false, true],
        guitar_charging: true,
        guitar_stereo_connect: false,
        guitar_hex_signal: true,
        phys_output_meters: vec![5, 6],
        phys_input_meters: vec![1, 2, 3, 4],
    };
    assert_eq!(ctl.monitor_unit(read), Ok(()));
    match ctl.monitor_elems("clock-detect") {
        Some(ElemValue::Bool(vals)) => assert_eq!(vals, vec![true, false, true]),
        _ => unreachable!(),
    }
    match ctl.monitor_elems("midi-in-detect") {
        Some(ElemValue::Bool(vals)) => assert_eq!(vals, vec![true]),
        _ => unreachable!(),
    }
    match ctl.monitor_elems("midi-out-detect") {
        Some(ElemValue::Bool(vals)) => assert_eq!(vals, vec![false, true]),
        _ => unreachable!(),
    }
    match ctl.monitor_elems("input-meter") {
        Some(ElemValue::Int(vals)) => assert_eq!(vals, vec![1, 2, 3, 4]),
        _ => unreachable!(),
    }
    match ctl.monitor_elems("output-meter") {
        Some(ElemValue::Int(vals)) => assert_eq!(vals, vec![5, 6]),
        _ => unreachable!(),
    }
    match ctl.monitor_elems("guitar-stereo-detect") {
        Some(ElemValue::Bool(vals)) => assert_eq!(vals, vec![false]),
        _ => unreachable!(),
    }
    match ctl.monitor_elems("guitar-hex-signal-detect") {
        Some(ElemValue::Bool(vals)) => assert_eq!(vals, vec![true]),
        _ => unreachable!(),
    }
    match ctl.monitor_elems("guitar-charge-state-detect") {
        Some(ElemValue::Bool(vals)) => assert_eq!(vals, vec![true]),
        _ => unreachable!(),
    }
    assert!(ctl.monitor_elems("sampling-rate").is_none());
}

#[test]
fn midi_detection_is_limited_to_known_ports() {
    let mut ctl = MeterCtl::new();
    let mut info = hwinfo();
    info.midi_inputs = 5;
    ctl.load(&info);
    match ctl.monitor_elems("midi-in-detect") {
        Some(ElemValue::Bool(vals)) => assert_eq!(vals, vec![false, false]),
        _ => unreachable!(),
    }
}

#[test]
fn labels_of_clock_sources() {
    assert_eq!(clk_src_to_label(&V3ClkSrc::Internal), "Internal");
    assert_eq!(clk_src_to_label(&V3ClkSrc::SpdifCoax), "S/PDIF-on-coax");
    assert_eq!(clk_src_to_label(&V3ClkSrc::WordClk), "Word-clk-on-BNC");
    assert_eq!(clk_src_to_label(&V3ClkSrc::SignalOptA), "Signal-on-opt-A");
    assert_eq!(clk_src_to_label(&V3ClkSrc::SignalOptB), "Signal-on-opt-B");
}

#[test]
fn clock_elements_of_third_generation() {
    let ctl = V3ClkCtl { has_lcd: true };
    let rates = vec!["44100".to_string(), "48000".to_string()];
    let srcs = [V3ClkSrc::Internal, V3ClkSrc::WordClk];
    let elems = ctl.load(rates.clone(), &srcs);
    assert_eq!(elems.len(), 2);
    assert_eq!(elems[0].name, "sampling-rate");
    assert_eq!(elems[1].name, "clock-source");
    for elem in &elems {
        assert_eq!(elem.iface, ElemIfaceType::Card);
        assert_eq!((elem.elem_count, elem.value_count), (1, 1));
        assert!(elem.unlock);
    }
    match &elems[0].kind {
        ElemKind::Enum(labels) => assert_eq!(labels, &rates),
        _ => unreachable!(),
    }
    match &elems[1].kind {
        ElemKind::Enum(labels) => assert_eq!(labels, &vec!["Internal", "Word-clk-on-BNC"]),
        _ => unreachable!(),
    }
    assert!(ctl.read());
    assert!(!V3ClkCtl { has_lcd: false }.read());
}

fn run_change(has_lcd: bool, outcomes: &[bool]) -> Vec<ClkSrcAction> {
    let ctl = V3ClkCtl { has_lcd };
    let (mut state, mut action) = ctl.write_begin();
    let mut actions = vec![action];
    let mut outcomes = outcomes.iter();
    loop {
        match action {
            ClkSrcAction::Succeed | ClkSrcAction::Fail(_) => return actions,
            _ => {}
        }
        let done = *outcomes.next().unwrap_or(&true);
        let next = ctl.write(state, 3, done, 1);
        state = next.0;
        action = next.1;
        actions.push(action);
    }
}

#[test]
fn clock_source_changes_without_display() {
    assert_eq!(
        run_change(false, &[]),
        vec![
            ClkSrcAction::GetSrc,
            ClkSrcAction::Lock,
            ClkSrcAction::SetSrc(3),
            ClkSrcAction::Unlock,
            ClkSrcAction::Succeed
        ]
    );
}

#[test]
fn clock_source_changes_with_display() {
    assert_eq!(
        run_change(true, &[]),
        vec![
            ClkSrcAction::GetSrc,
            ClkSrcAction::Lock,
            ClkSrcAction::SetSrc(3),
            ClkSrcAction::UpdateDisplay(3),
            ClkSrcAction::Unlock,
            ClkSrcAction::Succeed
        ]
    );
}

#[test]
fn failed_display_restores_clock_source() {
    assert_eq!(
        run_change(true, &[true, true, true, false, false, false]),
        vec![
            ClkSrcAction::GetSrc,
            ClkSrcAction::Lock,
            ClkSrcAction::SetSrc(3),
            ClkSrcAction::UpdateDisplay(3),
            ClkSrcAction::SetSrc(1),
            ClkSrcAction::Unlock,
            ClkSrcAction::Fail(ClkSrcFailure::UpdateDisplay)
        ]
    );
}

#[test]
fn failures_before_and_after_lock() {
    assert_eq!(
        run_change(true, &[false]),
        vec![ClkSrcAction::GetSrc, ClkSrcAction::Fail(ClkSrcFailure::GetSrc)]
    );
    assert_eq!(
        run_change(true, &[true, false]),
        vec![
            ClkSrcAction::GetSrc,
            ClkSrcAction::Lock,
            ClkSrcAction::Fail(ClkSrcFailure::Lock)
        ]
    );
    assert_eq!(
        run_change(true, &[true, true, false, false]),
        vec![
            ClkSrcAction::GetSrc,
            ClkSrcAction::Lock,
            ClkSrcAction::SetSrc(3),
            ClkSrcAction::Unlock,
            ClkSrcAction::Fail(ClkSrcFailure::SetSrc)
        ]
    );
    let ctl = V3ClkCtl { has_lcd: true };
    assert_eq!(
        ctl.write(ClkSrcState::Finished, 0, true, 0),
        (ClkSrcState::Finished, ClkSrcAction::Succeed)
    );
}

fn entry(freq: u32, entries: &[(u8, u8)]) -> FormatEntry {
    FormatEntry {
        freq,
        entries: entries.to_vec(),
    }
}

#[test]
fn rates_of_formats_rise_without_repetition() {
    let mut ctl = CommonCtl::new();
    assert!(ctl.supported_rates.is_empty());
    let output = vec![
        entry(48000, &[(2, 6)]),
        entry(44100, &[(2, 6)]),
        entry(96000, &[(2, 6)]),
        entry(44100, &[(4, 6)]),
    ];
    let input = vec![entry(32000, &[(2, 6)]), entry(48000, &[(2, 6)])];
    ctl.load(output, input, false);
    assert_eq!(ctl.supported_rates, vec![32000, 44100, 48000, 96000]);
    assert_eq!(ctl.output_fmt_entries.len(), 4);
    assert_eq!(ctl.input_fmt_entries.len(), 2);
    assert!(!ctl.assumed);
    assert_eq!(CLK_RATE_NAME, "sampling-rate");
}

#[test]
fn rate_is_found_among_rates() {
    let mut ctl = CommonCtl::new();
    ctl.load(
        vec![entry(48000, &[]), entry(44100, &[])],
        vec![],
        false,
    );
    assert_eq!(ctl.read_freq(44100), Ok(0));
    assert_eq!(ctl.read_freq(48000), Ok(1));
    let outcome = ctl.read_freq(96000);
    assert_eq!(outcome, Err(Error::UnsupportedRate(96000)));
    assert_eq!(outcome.unwrap_err().kind(), Some(FileError::Io));
}

#[test]
fn change_of_rate_is_planned() {
    let mut ctl = CommonCtl::new();
    ctl.load(
        vec![entry(48000, &[]), entry(44100, &[])],
        vec![entry(48000, &[])],
        false,
    );
    assert_eq!(
        ctl.write_freq(1),
        Ok((
            48000,
            vec![
                WriteStep::Enhanced(PlugDirection::Output),
                WriteStep::Enhanced(PlugDirection::Input)
            ]
        ))
    );
    let outcome = ctl.write_freq(2);
    assert_eq!(outcome, Err(Error::RateIndexOutOfRange(2)));
    assert_eq!(outcome.unwrap_err().kind(), Some(FileError::Io));
    ctl.load(vec![], vec![entry(48000, &[])], true);
    assert_eq!(
        ctl.write_freq(0),
        Ok((48000, vec![WriteStep::Fallback(PlugDirection::Input)]))
    );
    ctl.load(vec![entry(48000, &[])], vec![], true);
    assert_eq!(
        ctl.write_freq(0),
        Ok((48000, vec![WriteStep::Fallback(PlugDirection::Output)]))
    );
}

#[test]
fn format_with_rate_and_layout_is_found() {
    let mut ctl = CommonCtl::new();
    ctl.load(
        vec![
            entry(44100, &[(2, 6)]),
            entry(48000, &[(4, 6)]),
            entry(48000, &[(2, 6)]),
            entry(48000, &[(2, 6)]),
        ],
        vec![entry(48000, &[(2, 6), (1, 13)])],
        false,
    );
    let layout = [(2u8, 6u8)];
    assert_eq!(
        ctl.write_freq_for_enhanced_mode(48000, PlugDirection::Output, Some(&layout)),
        Ok(2)
    );
    assert_eq!(
        ctl.write_freq_for_enhanced_mode(44100, PlugDirection::Output, Some(&layout)),
        Ok(0)
    );
    let outcome = ctl.write_freq_for_enhanced_mode(48000, PlugDirection::Input, Some(&layout));
    assert_eq!(outcome, Err(Error::StreamFormatNotFound));
    assert_eq!(outcome.unwrap_err().kind(), Some(FileError::Nxio));
    assert_eq!(
        ctl.write_freq_for_enhanced_mode(48000, PlugDirection::Input, Some(&[(2, 6), (1, 13)])),
        Ok(0)
    );
    assert_eq!(
        ctl.write_freq_for_enhanced_mode(48000, PlugDirection::Output, None),
        Err(Error::StreamFormatUnavailable)
    );
}

#[test]
fn candidate_rates_in_order() {
    let rates: Vec<u32> = (0..7).map(candidate_rate).collect();
    assert_eq!(rates, vec![32000, 44100, 48000, 88200, 96000, 176400, 192000]);
    assert_eq!(FORMAT_LIST_MAX, 10);
}

#[test]
fn listed_formats_are_collected() {
    let (mut detection, action) = Detection::begin();
    assert_eq!(action, DetectAction::List(0));
    let action = detection.step(DetectEvent::Compound(entry(44100, &[(2, 6)])));
    assert_eq!(action, DetectAction::List(1));
    let action = detection.step(DetectEvent::Compound(entry(48000, &[(2, 6)])));
    assert_eq!(action, DetectAction::List(2));
    let action = detection.step(DetectEvent::Failed);
    assert_eq!(action, DetectAction::Done);
    assert_eq!(detection.phase, DetectPhase::Finished);
    assert!(!detection.assumed);
    let freqs: Vec<u32> = detection.entries.iter().map(|e| e.freq).collect();
    assert_eq!(freqs, vec![44100, 48000]);
}

#[test]
fn no_more_than_ten_formats_are_asked_for() {
    let (mut detection, mut action) = Detection::begin();
    let mut asked = vec![action];
    while action != DetectAction::Done {
        action = detection.step(DetectEvent::Compound(entry(48000, &[])));
        asked.push(action);
    }
    let mut expected: Vec<DetectAction> = (0..10).map(DetectAction::List).collect();
    expected.push(DetectAction::Done);
    assert_eq!(asked, expected);
    assert_eq!(detection.entries.len(), 10);
    assert_eq!(detection.step(DetectEvent::Other), DetectAction::Done);
    assert_eq!(detection.entries.len(), 10);
}

#[test]
fn list_ends_at_other_format() {
    let (mut detection, _) = Detection::begin();
    detection.step(DetectEvent::Compound(entry(44100, &[])));
    assert_eq!(detection.step(DetectEvent::Other), DetectAction::Done);
    assert_eq!(detection.entries.len(), 1);
    let (mut detection, _) = Detection::begin();
    assert_eq!(detection.step(DetectEvent::Other), DetectAction::Unavailable);
    assert_eq!(detection.phase, DetectPhase::Finished);
}

#[test]
fn formats_are_made_up_for_supported_rates() {
    let (mut detection, _) = Detection::begin();
    assert_eq!(detection.step(DetectEvent::Failed), DetectAction::Single);
    let action = detection.step(DetectEvent::Compound(entry(44100, &[(2, 6), (1, 13)])));
    assert_eq!(action, DetectAction::Inquire(32000));
    let supported = [false, true, true, false, true, false, false];
    let mut asked = Vec::new();
    let mut action = action;
    for ok in supported {
        assert!(!detection.assumed);
        let event = if ok {
            DetectEvent::Other
        } else {
            DetectEvent::Failed
        };
        action = detection.step(event);
        asked.push(action);
    }
    assert_eq!(
        asked,
        vec![
            DetectAction::Inquire(44100),
            DetectAction::Inquire(48000),
            DetectAction::Inquire(88200),
            DetectAction::Inquire(96000),
            DetectAction::Inquire(176400),
            DetectAction::Inquire(192000),
            DetectAction::Done
        ]
    );
    assert!(detection.assumed);
    let freqs: Vec<u32> = detection.entries.iter().map(|e| e.freq).collect();
    assert_eq!(freqs, vec![44100, 48000, 96000]);
    assert!(detection
        .entries
        .iter()
        .all(|e| e.entries == vec![(2, 6), (1, 13)]));
}

#[test]
fn detection_fails_without_current_format() {
    let (mut detection, _) = Detection::begin();
    detection.step(DetectEvent::Failed);
    assert_eq!(detection.step(DetectEvent::Failed), DetectAction::Failed);
    assert!(!detection.assumed);
    let (mut detection, _) = Detection::begin();
    detection.step(DetectEvent::Failed);
    assert_eq!(detection.step(DetectEvent::Other), DetectAction::Unavailable);
    assert!(detection.entries.is_empty());
}

#[test]
fn rate_element_shows_index_of_rate() {
    let mut ctl = CommonCtl::new();
    ctl.load(
        vec![entry(48000, &[]), entry(44100, &[])],
        vec![entry(96000, &[])],
        false,
    );
    match ctl.read(CLK_RATE_NAME, 96000) {
        Ok(Some(ElemValue::Enum(vals))) => assert_eq!(vals, vec![2]),
        _ => unreachable!(),
    }
    assert!(matches!(ctl.read("clock-source", 96000), Ok(None)));
    assert!(matches!(
        ctl.read(CLK_RATE_NAME, 32000),
        Err(Error::UnsupportedRate(32000))
    ));
}

#[test]
fn rate_element_asks_for_change_of_rate() {
    let mut ctl = CommonCtl::new();
    ctl.load(vec![entry(48000, &[]), entry(44100, &[])], vec![], true);
    assert_eq!(
        ctl.write(CLK_RATE_NAME, &ElemValue::Enum(vec![1])),
        Ok(Some((
            48000,
            vec![WriteStep::Fallback(PlugDirection::Output)]
        )))
    );
    assert_eq!(
        ctl.write(CLK_RATE_NAME, &ElemValue::Enum(vec![2])),
        Err(Error::RateIndexOutOfRange(2))
    );
    assert_eq!(
        ctl.write(CLK_RATE_NAME, &ElemValue::Enum(vec![])),
        Err(Error::InvalidArgument(Argument::ElemValue, 0))
    );
    assert_eq!(
        ctl.write(CLK_RATE_NAME, &ElemValue::Bool(vec![true])),
        Err(Error::InvalidArgument(Argument::ElemValue, 0))
    );
    assert_eq!(ctl.write("clock-source", &ElemValue::Enum(vec![9])), Ok(None));
}
