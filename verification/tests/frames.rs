use firewire_ctl::error::{
    from_avc_err, Argument, AvcCmdBuildError, AvcRespParseError, Error, FileError, Ta1394AvcError,
};
use firewire_ctl::frame::{
    audio_subunit_0, compose_command_frame, detect_response_operands, AvcAddr, AvcAddrSubunit,
    AvcCmdType, AvcRespCode, FRAME_SIZE, RESP_CODE_MASK, SUBUNIT_TYPE_AUDIO,
};

struct Reference;

impl ta1394_avc_general::Ta1394Avc<String> for Reference {
    fn transaction(&self, _: &[u8], _: u32) -> Result<Vec<u8>, String> {
        Err("no bus".to_string())
    }
}

fn reference_addr(addr: &AvcAddr) -> ta1394_avc_general::AvcAddr {
    match addr {
        AvcAddr::Unit => ta1394_avc_general::AvcAddr::Unit,
        AvcAddr::Subunit(s) => {
            ta1394_avc_general::AvcAddr::Subunit(ta1394_avc_general::AvcAddrSubunit {
                subunit_type: ta1394_avc_general::AvcSubunitType::from(s.subunit_type),
                subunit_id: s.subunit_id,
            })
        }
    }
}

#[test]
fn address_byte_of_unit_is_all_ones() {
    assert_eq!(AvcAddr::Unit.byte(), 0xff);
}

#[test]
fn address_byte_of_first_audio_subunit() {
    assert_eq!(audio_subunit_0().byte(), 0x08);
    assert!(audio_subunit_0().is_audio());
    assert!(!AvcAddr::Unit.is_audio());
}

#[test]
fn address_byte_joins_type_and_number() {
    let addr = AvcAddr::Subunit(AvcAddrSubunit {
        subunit_type: 0x0c,
        subunit_id: 3,
    });
    assert_eq!(addr.byte(), 0x63);
    assert!(!addr.is_audio());
}

#[test]
fn address_byte_matches_reference_for_every_subunit() {
    for subunit_type in 0..=255u8 {
        for subunit_id in 0..=255u8 {
            let addr = AvcAddr::Subunit(AvcAddrSubunit {
                subunit_type,
                subunit_id,
            });
            let expected = ((subunit_type & 0x1f) << 3) | (subunit_id & 0x07);
            assert_eq!(addr.byte(), expected);
            assert_eq!(addr.byte(), u8::from(reference_addr(&addr)));
            assert_eq!(addr.is_audio(), subunit_type == SUBUNIT_TYPE_AUDIO);
        }
    }
}

#[test]
fn command_type_bytes() {
    assert_eq!(AvcCmdType::Control.byte(), 0x00);
    assert_eq!(AvcCmdType::Status.byte(), 0x01);
    assert_eq!(
        AvcCmdType::Control.byte(),
        u8::from(ta1394_avc_general::AvcCmdType::Control)
    );
    assert_eq!(
        AvcCmdType::Status.byte(),
        u8::from(ta1394_avc_general::AvcCmdType::Status)
    );
}

#[test]
fn response_codes_have_their_names() {
    assert_eq!(AvcRespCode::from_code(0x08), AvcRespCode::NotImplemented);
    assert_eq!(AvcRespCode::from_code(0x09), AvcRespCode::Accepted);
    assert_eq!(AvcRespCode::from_code(0x0a), AvcRespCode::Rejected);
    assert_eq!(AvcRespCode::from_code(0x0b), AvcRespCode::InTransition);
    assert_eq!(AvcRespCode::from_code(0x0c), AvcRespCode::ImplementedStable);
    assert_eq!(AvcRespCode::from_code(0x0d), AvcRespCode::Changed);
    assert_eq!(AvcRespCode::from_code(0x0f), AvcRespCode::Interim);
}

#[test]
fn response_codes_without_name_are_reserved() {
    for code in 0..=255u8 {
        let named = (0x08..=0x0d).contains(&code) || code == 0x0f;
        let rcode = AvcRespCode::from_code(code);
        assert_eq!(rcode == AvcRespCode::Reserved(code), !named);
    }
    assert_eq!(AvcRespCode::from_code(0x00), AvcRespCode::Reserved(0x00));
    assert_eq!(AvcRespCode::from_code(0x0e), AvcRespCode::Reserved(0x0e));
}

#[test]
fn command_frame_is_type_target_opcode_operands() {
    let frame = compose_command_frame(AvcCmdType::Control, &AvcAddr::Unit, 0x19, &[1, 2, 3]);
    assert_eq!(frame, vec![0x00, 0xff, 0x19, 1, 2, 3]);
    let frame = compose_command_frame(AvcCmdType::Status, &audio_subunit_0(), 0xb8, &[]);
    assert_eq!(frame, vec![0x01, 0x08, 0xb8]);
}

#[test]
fn command_frame_matches_reference() {
    let operands = [0x81, 0x02, 0x10, 0x02, 0x01, 0x02, 0x02, 0xff, 0xff];
    let addr = audio_subunit_0();
    let frame = compose_command_frame(AvcCmdType::Status, &addr, 0xb8, &operands);
    let reference = <Reference as ta1394_avc_general::Ta1394Avc<String>>::compose_command_frame(
        ta1394_avc_general::AvcCmdType::Status,
        &reference_addr(&addr),
        0xb8,
        &operands,
    );
    assert_eq!(frame, reference);
}

#[test]
fn response_frame_is_taken_apart() {
    let frame = [0x09, 0xff, 0x19, 0x00, 0x90, 0x02, 0xff, 0xff];
    let (rcode, operands) = detect_response_operands(&frame, &AvcAddr::Unit, 0x19).unwrap();
    assert_eq!(rcode, AvcRespCode::Accepted);
    assert_eq!(operands, &[0x00, 0x90, 0x02, 0xff, 0xff]);
}

#[test]
fn response_code_is_read_from_low_bits() {
    assert_eq!(RESP_CODE_MASK, 0x0f);
    let frame = [0xfc, 0xff, 0x1a];
    let (rcode, operands) = detect_response_operands(&frame, &AvcAddr::Unit, 0x1a).unwrap();
    assert_eq!(rcode, AvcRespCode::ImplementedStable);
    assert!(operands.is_empty());
}

#[test]
fn response_frame_matches_reference() {
    let addr = audio_subunit_0();
    for code in 0..=255u8 {
        let frame = [code, 0x08, 0xb8, 0x80, 0x01];
        let (rcode, operands) = detect_response_operands(&frame, &addr, 0xb8).unwrap();
        let (expected, expected_operands) =
            <Reference as ta1394_avc_general::Ta1394Avc<String>>::detect_response_operands(
                &frame,
                &reference_addr(&addr),
                0xb8,
            )
            .unwrap();
        assert_eq!(operands, expected_operands);
        assert_eq!(rcode, AvcRespCode::from_code(u8::from(expected)));
    }
}

#[test]
fn short_response_frame_is_turned_down() {
    for len in 0..3 {
        let frame = vec![0x09; len];
        assert_eq!(
            detect_response_operands(&frame, &AvcAddr::Unit, 0x09),
            Err(AvcRespParseError::TooShortResp(3))
        );
    }
}

#[test]
fn response_from_other_target_is_turned_down() {
    let frame = [0x09, 0x08, 0x19, 0x00];
    assert_eq!(
        detect_response_operands(&frame, &AvcAddr::Unit, 0x19),
        Err(AvcRespParseError::UnexpectedAddr)
    );
}

#[test]
fn response_for_other_operation_is_turned_down() {
    let frame = [0x09, 0xff, 0x18, 0x00];
    assert_eq!(
        detect_response_operands(&frame, &AvcAddr::Unit, 0x19),
        Err(AvcRespParseError::UnexpectedOpcode)
    );
}

#[test]
fn frame_size_is_512() {
    assert_eq!(FRAME_SIZE, 512);
}

#[test]
fn failed_command_build_is_invalid_argument() {
    let error = from_avc_err(Ta1394AvcError::CmdBuild(AvcCmdBuildError::InvalidAddress));
    assert_eq!(error, Error::CmdBuild(AvcCmdBuildError::InvalidAddress));
    assert_eq!(error.kind(), Some(FileError::Inval));
}

#[test]
fn failed_response_parse_is_io() {
    let error = from_avc_err(Ta1394AvcError::RespParse(AvcRespParseError::UnexpectedStatus));
    assert_eq!(error, Error::RespParse(AvcRespParseError::UnexpectedStatus));
    assert_eq!(error.kind(), Some(FileError::Io));
}

#[test]
fn failed_communication_passes_through() {
    let error = from_avc_err(Ta1394AvcError::CommunicationFailure);
    assert_eq!(error, Error::CommunicationFailure);
    assert_eq!(error.kind(), None);
}

#[test]
fn kinds_of_capability_failures() {
    assert_eq!(
        Error::InvalidArgument(Argument::Frequency, 9).kind(),
        Some(FileError::Inval)
    );
    assert_eq!(Error::UnexpectedFrequency(1).kind(), Some(FileError::Io));
    assert_eq!(Error::UnexpectedClockSource.kind(), Some(FileError::Io));
    assert_eq!(Error::UnexpectedInputPlug(4).kind(), Some(FileError::Io));
    assert_eq!(Error::StreamFormatUnavailable.kind(), Some(FileError::Nxio));
}
