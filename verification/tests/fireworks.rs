use firewire_ctl::efw::port_conf::{
    build_stream_map, DigitalMode, PortConfProtocol, CATEGORY_PORT_CONF, MAP_ENTRY_COUNT,
    MAP_ENTRY_DISABLE, MAP_SIZE,
};
use firewire_ctl::efw::robot_guitar::{
    GuitarChargeState, RobotGuitarProtocol, CATEGORY_ROBOT_GUITAR,
};
use firewire_ctl::error::{Argument, AvcRespParseError, Error};

#[test]
fn digital_mode_from_quadlet() {
    assert_eq!(DigitalMode::from(0), DigitalMode::SpdifCoax);
    assert_eq!(DigitalMode::from(1), DigitalMode::AesebuXlr);
    assert_eq!(DigitalMode::from(2), DigitalMode::SpdifOpt);
    assert_eq!(DigitalMode::from(3), DigitalMode::AdatOpt);
    assert_eq!(DigitalMode::from(4), DigitalMode::Unknown(4));
    assert_eq!(DigitalMode::from(u32::MAX), DigitalMode::Unknown(u32::MAX));
}

#[test]
fn digital_mode_to_quadlet() {
    assert_eq!(u32::from(DigitalMode::SpdifCoax), 0);
    assert_eq!(u32::from(DigitalMode::AesebuXlr), 1);
    assert_eq!(u32::from(DigitalMode::SpdifOpt), 2);
    assert_eq!(u32::from(DigitalMode::AdatOpt), 3);
    assert_eq!(u32::from(DigitalMode::Unknown(77)), 77);
}

#[test]
fn digital_mode_round_trip_of_quadlets() {
    for val in [0u32, 1, 2, 3, 4, 5, 100, u32::MAX] {
        assert_eq!(u32::from(DigitalMode::from(val)), val);
    }
}

#[test]
fn control_room_source_commands() {
    let cmd = PortConfProtocol::set_control_room_source(3).unwrap();
    assert_eq!(cmd.category, CATEGORY_PORT_CONF);
    assert_eq!(cmd.category, 9);
    assert_eq!(cmd.command, 0);
    assert_eq!(cmd.args, vec![6]);
    assert_eq!(cmd.params_len, 0);
    let cmd = PortConfProtocol::get_control_room_source_command();
    assert_eq!(cmd.category, 9);
    assert_eq!(cmd.command, 1);
    assert!(cmd.args.is_empty());
    assert_eq!(cmd.params_len, 1);
}

#[test]
fn control_room_source_of_pair_without_port_number() {
    let pair = usize::MAX / 2 + 1;
    assert_eq!(
        PortConfProtocol::set_control_room_source(pair).unwrap_err(),
        Error::InvalidArgument(Argument::PortPair, pair)
    );
    assert!(PortConfProtocol::set_control_room_source(usize::MAX / 2).is_ok());
}

#[test]
fn control_room_source_is_half_the_port() {
    assert_eq!(PortConfProtocol::get_control_room_source(&[6]), Ok(3));
    assert_eq!(PortConfProtocol::get_control_room_source(&[7, 9]), Ok(3));
    assert_eq!(PortConfProtocol::get_control_room_source(&[0]), Ok(0));
    assert_eq!(
        PortConfProtocol::get_control_room_source(&[]),
        Err(Error::RespParse(AvcRespParseError::TooShortResp(1)))
    );
}

#[test]
fn control_room_source_that_was_set_is_read() {
    for pair in [0usize, 1, 2, 17, 1000] {
        let cmd = PortConfProtocol::set_control_room_source(pair).unwrap();
        assert_eq!(PortConfProtocol::get_control_room_source(&cmd.args), Ok(pair));
    }
}

#[test]
fn digital_mode_commands() {
    let cmd = PortConfProtocol::set_digital_mode(DigitalMode::SpdifOpt);
    assert_eq!((cmd.category, cmd.command), (9, 2));
    assert_eq!(cmd.args, vec![2]);
    assert_eq!(cmd.params_len, 0);
    let cmd = PortConfProtocol::get_digital_mode_command();
    assert_eq!((cmd.category, cmd.command), (9, 3));
    assert!(cmd.args.is_empty());
    assert_eq!(cmd.params_len, 1);
    assert_eq!(
        PortConfProtocol::get_digital_mode(&[3]),
        Ok(DigitalMode::AdatOpt)
    );
    assert_eq!(
        PortConfProtocol::get_digital_mode(&[9]),
        Ok(DigitalMode::Unknown(9))
    );
    assert_eq!(
        PortConfProtocol::get_digital_mode(&[]),
        Err(Error::RespParse(AvcRespParseError::TooShortResp(1)))
    );
}

#[test]
fn phantom_powering_commands() {
    let cmd = PortConfProtocol::set_phantom_powering(true);
    assert_eq!((cmd.category, cmd.command), (9, 4));
    assert_eq!(cmd.args, vec![1]);
    let cmd = PortConfProtocol::set_phantom_powering(false);
    assert_eq!(cmd.args, vec![0]);
    let cmd = PortConfProtocol::get_phantom_powering_command();
    assert_eq!((cmd.category, cmd.command), (9, 5));
    assert_eq!(cmd.params_len, 1);
    assert_eq!(PortConfProtocol::get_phantom_powering(&[0]), Ok(false));
    assert_eq!(PortConfProtocol::get_phantom_powering(&[1]), Ok(true));
    assert_eq!(PortConfProtocol::get_phantom_powering(&[5]), Ok(true));
    assert_eq!(
        PortConfProtocol::get_phantom_powering(&[]),
        Err(Error::RespParse(AvcRespParseError::TooShortResp(1)))
    );
}

#[test]
fn stream_map_constants() {
    assert_eq!(MAP_SIZE, 70);
    assert_eq!(MAP_ENTRY_COUNT, 32);
    assert_eq!(MAP_ENTRY_DISABLE, 0xffffffff);
}

#[test]
fn stream_map_is_laid_out() {
    let mut quads = [0x55u32; 70];
    let rx = [Some(0usize), None, Some(4)];
    let tx = [Some(2usize), Some(6)];
    build_stream_map(&mut quads, 48000, 4, 5, &rx, &tx);
    assert_eq!(quads[0], 48000);
    assert_eq!(quads[1], 0);
    assert_eq!(quads[2], 3);
    assert_eq!(quads[3], 8);
    assert_eq!(&quads[4..7], &[0, 0xffffffff, 4]);
    assert!(quads[7..36].iter().all(|quad| *quad == 0xffffffff));
    assert_eq!(quads[36], 2);
    assert_eq!(quads[37], 10);
    assert_eq!(&quads[38..40], &[2, 6]);
    assert!(quads[40..70].iter().all(|quad| *quad == 0xffffffff));
}

#[test]
fn empty_stream_map() {
    let mut quads = [1u32; 70];
    build_stream_map(&mut quads, 96000, 0, 0, &[], &[]);
    assert_eq!(&quads[..4], &[96000, 0, 0, 0]);
    assert!(quads[4..36].iter().all(|quad| *quad == 0xffffffff));
    assert_eq!(&quads[36..38], &[0, 0]);
    assert!(quads[38..].iter().all(|quad| *quad == 0xffffffff));
}

#[test]
fn set_stream_map_command() {
    let rx: Vec<Option<usize>> = (0..31).map(|i| Some(2 * i)).collect();
    let tx = [None, Some(30usize)];
    let cmd = PortConfProtocol::set_stream_map(44100, 16, 1, &rx, &tx).unwrap();
    assert_eq!((cmd.category, cmd.command), (9, 6));
    assert_eq!(cmd.params_len, 0);
    assert_eq!(cmd.args.len(), 70);
    assert_eq!(&cmd.args[..4], &[44100, 0, 31, 32]);
    for i in 0..31 {
        assert_eq!(cmd.args[4 + i], 2 * i as u32);
    }
    assert_eq!(cmd.args[35], 0xffffffff);
    assert_eq!(&cmd.args[36..40], &[2, 2, 0xffffffff, 30]);
}

#[test]
fn stream_map_with_too_many_streams_is_not_built() {
    let long = vec![None; 32];
    let short = vec![None; 31];
    assert_eq!(
        PortConfProtocol::set_stream_map(44100, 1, 1, &long, &short).unwrap_err(),
        Error::InvalidArgument(Argument::StreamMapLength, 32)
    );
    assert_eq!(
        PortConfProtocol::set_stream_map(44100, 1, 1, &short, &long).unwrap_err(),
        Error::InvalidArgument(Argument::StreamMapLength, 32)
    );
    assert!(PortConfProtocol::set_stream_map(44100, 1, 1, &short, &short).is_ok());
    assert_eq!(
        PortConfProtocol::set_stream_map(44100, usize::MAX, 1, &short, &short).unwrap_err(),
        Error::InvalidArgument(Argument::PortPairCount, usize::MAX)
    );
    assert_eq!(
        PortConfProtocol::set_stream_map(44100, 1, usize::MAX, &short, &short).unwrap_err(),
        Error::InvalidArgument(Argument::PortPairCount, usize::MAX)
    );
}

#[test]
fn get_stream_map_command() {
    let cmd = PortConfProtocol::get_stream_map_command(88200);
    assert_eq!((cmd.category, cmd.command), (9, 7));
    assert_eq!(cmd.args, vec![88200]);
    assert_eq!(cmd.params_len, 70);
}

#[test]
fn stream_map_is_read_into_both_directions() {
    let mut params = vec![0u32; 70];
    params[2] = 3;
    params[4] = 0;
    params[5] = 6;
    params[6] = 8;
    params[7] = 2;
    params[36] = 2;
    params[38] = 3;
    params[39] = 12;
    let mut rx = [Some(99usize); 5];
    let mut tx = [None; 3];
    PortConfProtocol::get_stream_map(&params, 4, 8, &mut rx, &mut tx).unwrap();
    assert_eq!(rx, [Some(0), Some(3), None, Some(99), Some(99)]);
    assert_eq!(tx, [Some(1), Some(6), None]);
}

#[test]
fn stream_map_reads_no_more_than_it_holds() {
    let mut params = vec![1u32; 40];
    params[2] = 100;
    params[36] = 100;
    let mut rx = [None; 40];
    let mut tx = [None; 4];
    PortConfProtocol::get_stream_map(&params, 1, 1, &mut rx, &mut tx).unwrap();
    assert!(rx[..32].iter().all(|entry| *entry == Some(0)));
    assert_eq!(rx[32], None);
    assert!(rx[33..36].iter().all(|entry| *entry == Some(0)));
    assert!(rx[36..].iter().all(|entry| entry.is_none()));
    assert_eq!(tx, [Some(0), Some(0), None, None]);
}

#[test]
fn short_stream_map_is_turned_down() {
    let params = vec![0u32; 37];
    let mut rx = [Some(1usize); 2];
    let mut tx = [Some(2usize); 2];
    assert_eq!(
        PortConfProtocol::get_stream_map(&params, 1, 1, &mut rx, &mut tx),
        Err(Error::RespParse(AvcRespParseError::TooShortResp(38)))
    );
    assert_eq!(rx, [Some(1), Some(1)]);
    assert_eq!(tx, [Some(2), Some(2)]);
    let count = 0x8000_0000usize;
    let params = vec![0u32; 70];
    assert_eq!(
        PortConfProtocol::get_stream_map(&params, count, 1, &mut rx, &mut tx),
        Err(Error::InvalidArgument(Argument::PortPairCount, count))
    );
    assert_eq!(
        PortConfProtocol::get_stream_map(&params, 1, count, &mut rx, &mut tx),
        Err(Error::InvalidArgument(Argument::PortPairCount, count))
    );
}

#[test]
fn stream_map_that_was_set_is_read() {
    let rx = [Some(0usize), Some(2), None, Some(6)];
    let tx = [Some(4usize), None];
    let cmd = PortConfProtocol::set_stream_map(48000, 4, 3, &rx, &tx).unwrap();
    let mut rx_read = [Some(77usize); 4];
    let mut tx_read = [Some(77usize); 2];
    PortConfProtocol::get_stream_map(&cmd.args, 4, 3, &mut rx_read, &mut tx_read).unwrap();
    assert_eq!(rx_read, [Some(0), Some(1), None, Some(3)]);
    assert_eq!(tx_read, [Some(2), None]);
}

#[test]
fn charge_state_commands() {
    let cmd = RobotGuitarProtocol::get_charge_state_command();
    assert_eq!(cmd.category, CATEGORY_ROBOT_GUITAR);
    assert_eq!((cmd.category, cmd.command), (10, 8));
    assert!(cmd.args.is_empty());
    assert_eq!(cmd.params_len, 3);
    let state = GuitarChargeState {
        manual_charge: true,
        auto_charge: false,
        suspend_to_charge: 120,
    };
    let cmd = RobotGuitarProtocol::set_charge_state(&state);
    assert_eq!((cmd.category, cmd.command), (10, 7));
    assert_eq!(cmd.args, vec![1, 0, 120]);
    assert_eq!(cmd.params_len, 3);
}

#[test]
fn charge_state_is_read_from_three_quadlets() {
    assert_eq!(
        RobotGuitarProtocol::get_charge_state(&[0, 2, 33]),
        Ok(GuitarChargeState {
            manual_charge: false,
            auto_charge: true,
            suspend_to_charge: 33,
        })
    );
    for len in 0..3 {
        assert_eq!(
            RobotGuitarProtocol::get_charge_state(&vec![1; len]),
            Err(Error::RespParse(AvcRespParseError::TooShortResp(3)))
        );
    }
}

#[test]
fn charge_state_that_was_set_is_read() {
    for manual_charge in [false, true] {
        for auto_charge in [false, true] {
            for suspend_to_charge in [0u32, 1, u32::MAX] {
                let state = GuitarChargeState {
                    manual_charge,
                    auto_charge,
                    suspend_to_charge,
                };
                let cmd = RobotGuitarProtocol::set_charge_state(&state);
                assert_eq!(RobotGuitarProtocol::get_charge_state(&cmd.args), Ok(state));
            }
        }
    }
}
