//! Operands of the signal source command, which connects the source of a
//! signal to its destination.

use vstd::prelude::*;
use crate::error::{AvcCmdBuildError, AvcRespParseError};
use crate::frame::{AvcAddr, AvcAddrSubunit, AvcCmdType};

verus! {

/// Opcode of the signal source command.
pub const SIGNAL_SOURCE_OPCODE: u8 = 0x1a;

/// A plug of the unit. Plug numbers take seven bits on the wire.
#[derive(Clone, Copy, Debug, PartialEq, Eq, Structural)]
pub enum SignalUnitAddr {
    /// A plug for an isochronous stream.
    Isoc(u8),
    /// A plug for an external signal.
    Ext(u8),
}

/// A plug of a subunit.
#[derive(Clone, Copy, Debug, PartialEq, Eq, Structural)]
pub struct SignalSubunitAddr {
    pub subunit: AvcAddrSubunit,
    pub plug_id: u8,
}

/// The plug that a signal comes from or goes to.
#[derive(Clone, Copy, Debug, PartialEq, Eq, Structural)]
pub enum SignalAddr {
    Unit(SignalUnitAddr),
    Subunit(SignalSubunitAddr),
}

impl SignalAddr {
    /// The two bytes of the plug: for a plug of the unit 0xff and the plug
    /// number, with the top bit set for an external plug; for a plug of a
    /// subunit the subunit's address byte and the plug number.
    pub open spec fn bytes(self) -> Seq<u8> {
        match self {
            SignalAddr::Unit(SignalUnitAddr::Isoc(plug_id)) => seq![0xff, plug_id],
            SignalAddr::Unit(SignalUnitAddr::Ext(plug_id)) => seq![0xff, 0x80 | plug_id],
            SignalAddr::Subunit(s) => seq![AvcAddr::Subunit(s.subunit).spec_byte(), s.plug_id],
        }
    }

    /// The plug that two bytes name.
    pub open spec fn from_bytes(b0: u8, b1: u8) -> SignalAddr {
        if b0 == 0xff {
            if b1 & 0x80 > 0 {
                SignalAddr::Unit(SignalUnitAddr::Ext(b1 & 0x7f))
            } else {
                SignalAddr::Unit(SignalUnitAddr::Isoc(b1 & 0x7f))
            }
        } else {
            SignalAddr::Subunit(
                SignalSubunitAddr {
                    subunit: AvcAddrSubunit {
                        subunit_type: (b0 >> 3) & 0x1f,
                        subunit_id: b0 & 0x07,
                    },
                    plug_id: b1,
                },
            )
        }
    }

    /// Whether the plug is named by its own bytes: its numbers fit their
    /// bits, and a subunit's address byte is not that of the unit.
    pub open spec fn canonical(self) -> bool {
        match self {
            SignalAddr::Unit(SignalUnitAddr::Isoc(plug_id)) => plug_id < 0x80,
            SignalAddr::Unit(SignalUnitAddr::Ext(plug_id)) => plug_id < 0x80,
            SignalAddr::Subunit(s) => s.subunit.subunit_type < 0x20 && s.subunit.subunit_id < 0x08
                && !(s.subunit.subunit_type == 0x1f && s.subunit.subunit_id == 0x07),
        }
    }
}

/// A plug whose numbers fit their bits is read back from its bytes.
pub proof fn signal_addr_round_trip(addr: SignalAddr)
    requires
        addr.canonical(),
    ensures
        addr.bytes().len() == 2,
        SignalAddr::from_bytes(addr.bytes()[0], addr.bytes()[1]) == addr,
{
    match addr {
        SignalAddr::Unit(SignalUnitAddr::Isoc(plug_id)) => {
            assert(plug_id < 0x80 ==> plug_id & 0x80 == 0 && plug_id & 0x7f == plug_id)
                by (bit_vector);
        },
        SignalAddr::Unit(SignalUnitAddr::Ext(plug_id)) => {
            assert(plug_id < 0x80 ==> (0x80 | plug_id) & 0x80 > 0 && (0x80 | plug_id) & 0x7f
                == plug_id) by (bit_vector);
        },
        SignalAddr::Subunit(s) => {
            let t = s.subunit.subunit_type;
            let i = s.subunit.subunit_id;
            assert(t < 0x20 && i < 0x08 ==> ((((t & 0x1f) << 3) | (i & 0x07)) >> 3) & 0x1f == t
                && (((t & 0x1f) << 3) | (i & 0x07)) & 0x07 == i) by (bit_vector);
            assert(t < 0x20 && i < 0x08 && !(t == 0x1f && i == 0x07) ==> ((t & 0x1f) << 3) | (i
                & 0x07) != 0xff) by (bit_vector);
        },
    }
}

/// The command: the plug that the signal goes to and the plug that it comes
/// from. After a response was read both are what the device reported.
#[derive(Clone, Copy, Debug, PartialEq, Eq, Structural)]
pub struct SignalSource {
    pub src: SignalAddr,
    pub dst: SignalAddr,
}

impl SignalSource {
    /// The operands of the command: a byte of ones, the source and the
    /// destination. A status command names no source.
    pub open spec fn operands(self, ctype: AvcCmdType) -> Seq<u8> {
        match ctype {
            AvcCmdType::Control => seq![0xffu8] + self.src.bytes() + self.dst.bytes(),
            AvcCmdType::Status => seq![0xffu8, 0xff, 0xfe] + self.dst.bytes(),
        }
    }

    /// What a response with five bytes or more reports.
    pub open spec fn reported(operands: Seq<u8>) -> SignalSource
        recommends
            operands.len() > 4,
    {
        SignalSource {
            src: SignalAddr::from_bytes(operands[1], operands[2]),
            dst: SignalAddr::from_bytes(operands[3], operands[4]),
        }
    }

    /// What a response reports, or the reason why it is turned down: five
    /// bytes are needed.
    pub open spec fn parsed(operands: Seq<u8>) -> Result<SignalSource, AvcRespParseError> {
        if operands.len() > 4 {
            Ok(SignalSource::reported(operands))
        } else {
            Err(AvcRespParseError::TooShortResp(4))
        }
    }

    /// The command that asks for, or sets, the source of `dst`; until it is
    /// set the source is the isochronous plug with the highest number.
    pub fn new(dst: &SignalAddr) -> (op: SignalSource)
        ensures
            op == (SignalSource { src: SignalAddr::Unit(SignalUnitAddr::Isoc(0x7f)), dst: *dst }),
    {
        SignalSource { src: SignalAddr::Unit(SignalUnitAddr::Isoc(0x7f)), dst: *dst }
    }
}

/// `AvcStatus::build_operands` of ta1394_avc_ccm's `SignalSource`: a byte of
/// ones, the bytes 0xff and 0xfe in place of a source, and the two bytes of
/// the destination.
#[verifier::external_body]
fn signal_source_status_operands(op: &SignalSource) -> (operands: Vec<u8>)
    ensures
        operands@ == op.operands(AvcCmdType::Status),
{
    let unit = |a: SignalUnitAddr| match a {
        SignalUnitAddr::Isoc(id) => ta1394_avc_ccm::SignalUnitAddr::Isoc(id),
        SignalUnitAddr::Ext(id) => ta1394_avc_ccm::SignalUnitAddr::Ext(id),
    };
    let dst = match op.dst {
        SignalAddr::Unit(a) => ta1394_avc_ccm::SignalAddr::Unit(unit(a)),
        SignalAddr::Subunit(s) => ta1394_avc_ccm::SignalAddr::new_for_subunit(
            s.subunit.subunit_type.into(), s.subunit.subunit_id, s.plug_id),
    };
    let mut source = ta1394_avc_ccm::SignalSource::new(&dst);
    let mut operands = Vec::new();
    let addr = ta1394_avc_general::AvcAddr::Unit;
    let _ = ta1394_avc_general::AvcStatus::build_operands(&mut source, &addr, &mut operands);
    operands
}

/// `AvcControl::build_operands` of ta1394_avc_ccm's `SignalSource`: a byte
/// of ones, the two bytes of the source and the two bytes of the
/// destination.
#[verifier::external_body]
fn signal_source_control_operands(op: &SignalSource) -> (operands: Vec<u8>)
    ensures
        operands@ == op.operands(AvcCmdType::Control),
{
    let outside = |a: SignalAddr| match a {
        SignalAddr::Unit(SignalUnitAddr::Isoc(id)) => ta1394_avc_ccm::SignalAddr::Unit(
            ta1394_avc_ccm::SignalUnitAddr::Isoc(id)),
        SignalAddr::Unit(SignalUnitAddr::Ext(id)) => ta1394_avc_ccm::SignalAddr::Unit(
            ta1394_avc_ccm::SignalUnitAddr::Ext(id)),
        SignalAddr::Subunit(s) => ta1394_avc_ccm::SignalAddr::new_for_subunit(
            s.subunit.subunit_type.into(), s.subunit.subunit_id, s.plug_id),
    };
    let mut source = ta1394_avc_ccm::SignalSource { src: outside(op.src), dst: outside(op.dst) };
    let mut operands = Vec::new();
    let addr = ta1394_avc_general::AvcAddr::Unit;
    let _ = ta1394_avc_general::AvcControl::build_operands(&mut source, &addr, &mut operands);
    operands
}

/// `AvcStatus::parse_operands` of ta1394_avc_ccm's `SignalSource`: operands
/// of five bytes or more are accepted; the second and third byte name the
/// source, the fourth and fifth the destination.
#[verifier::external_body]
fn signal_source_status_reported(operands: &[u8]) -> (reported: Option<SignalSource>)
    requires
        operands@.len() > 4,
    ensures
        reported == Some(SignalSource::reported(operands@)),
{
    let back = |a: ta1394_avc_ccm::SignalAddr| match a {
        ta1394_avc_ccm::SignalAddr::Unit(ta1394_avc_ccm::SignalUnitAddr::Isoc(id)) =>
            SignalAddr::Unit(SignalUnitAddr::Isoc(id)),
        ta1394_avc_ccm::SignalAddr::Unit(ta1394_avc_ccm::SignalUnitAddr::Ext(id)) =>
            SignalAddr::Unit(SignalUnitAddr::Ext(id)),
        ta1394_avc_ccm::SignalAddr::Subunit(s) => SignalAddr::Subunit(SignalSubunitAddr {
            subunit: AvcAddrSubunit { subunit_type: s.subunit.subunit_type.into(),
                subunit_id: s.subunit.subunit_id }, plug_id: s.plug_id }),
    };
    let mut source = ta1394_avc_ccm::SignalSource::new(&ta1394_avc_ccm::SignalAddr::new_for_isoc_unit(0));
    let addr = ta1394_avc_general::AvcAddr::Unit;
    ta1394_avc_general::AvcStatus::parse_operands(&mut source, &addr, operands).ok()?;
    Some(SignalSource { src: back(source.src), dst: back(source.dst) })
}

/// `AvcControl::parse_operands` of ta1394_avc_ccm's `SignalSource`, which
/// reads the response to a control command as that to a status command is
/// read.
#[verifier::external_body]
fn signal_source_control_reported(operands: &[u8]) -> (reported: Option<SignalSource>)
    requires
        operands@.len() > 4,
    ensures
        reported == Some(SignalSource::reported(operands@)),
{
    let back = |a: ta1394_avc_ccm::SignalAddr| match a {
        ta1394_avc_ccm::SignalAddr::Unit(ta1394_avc_ccm::SignalUnitAddr::Isoc(id)) =>
            SignalAddr::Unit(SignalUnitAddr::Isoc(id)),
        ta1394_avc_ccm::SignalAddr::Unit(ta1394_avc_ccm::SignalUnitAddr::Ext(id)) =>
            SignalAddr::Unit(SignalUnitAddr::Ext(id)),
        ta1394_avc_ccm::SignalAddr::Subunit(s) => SignalAddr::Subunit(SignalSubunitAddr {
            subunit: AvcAddrSubunit { subunit_type: s.subunit.subunit_type.into(),
                subunit_id: s.subunit.subunit_id }, plug_id: s.plug_id }),
    };
    let mut source = ta1394_avc_ccm::SignalSource::new(&ta1394_avc_ccm::SignalAddr::new_for_isoc_unit(0));
    let addr = ta1394_avc_general::AvcAddr::Unit;
    ta1394_avc_general::AvcControl::parse_operands(&mut source, &addr, operands).ok()?;
    Some(SignalSource { src: back(source.src), dst: back(source.dst) })
}

impl SignalSource {
    /// Serialises the command. The command goes to any target.
    pub fn build_operands(&self, ctype: AvcCmdType) -> (operands: Result<Vec<u8>, AvcCmdBuildError>)
        ensures
            operands is Ok,
            operands->Ok_0@ == self.operands(ctype),
    {
        match ctype {
            AvcCmdType::Control => Ok(signal_source_control_operands(self)),
            AvcCmdType::Status => Ok(signal_source_status_operands(self)),
        }
    }

    /// Reads the operands of a response into the command.
    pub fn parse_operands(&mut self, ctype: AvcCmdType, operands: &[u8]) -> (parsed: Result<
        (),
        AvcRespParseError,
    >)
        ensures
            match SignalSource::parsed(operands@) {
                Ok(op) => parsed is Ok && *final(self) == op,
                Err(e) => parsed == Err::<(), AvcRespParseError>(e) && *final(self) == *old(self),
            },
    {
        if operands.len() <= 4 {
            return Err(AvcRespParseError::TooShortResp(4));
        }
        let reported = match ctype {
            AvcCmdType::Control => signal_source_control_reported(operands),
            AvcCmdType::Status => signal_source_status_reported(operands),
        };
        match reported {
            Some(op) => {
                *self = op;
                Ok(())
            },
            None => Err(AvcRespParseError::TooShortResp(4)),
        }
    }
}

} // verus!
