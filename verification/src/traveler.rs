//! The controls of the microphone inputs of the Traveler: gain and pad of
//! each input, kept as the device reported them last.

use vstd::prelude::*;
use crate::elem::{
    db_interval_data, db_interval_tlv, is_named, ElemDef, ElemIfaceType, ElemKind, ElemValue,
    ElemValueView, IntRange,
};
use crate::error::{Argument, Error};

verus! {

/// Number of microphone inputs.
pub const MIC_INPUT_COUNT: usize = 4;

pub const MIC_GAIN_MIN: u8 = 0x00;

pub const MIC_GAIN_MAX: u8 = 0x35;

pub const MIC_GAIN_STEP: u8 = 0x01;

/// Name of the element for the gains.
pub const MIC_GAIN_NAME: &'static str = "mic-gain-name";

/// Name of the element for the pads.
pub const MIC_PAD_NAME: &'static str = "mic-pad-name";

/// The lower end of the scale of the gain, in hundredths of a decibel.
pub const GAIN_TLV_MIN: i32 = -6400;

/// The upper end of the scale of the gain.
pub const GAIN_TLV_MAX: i32 = 0;

/// Gain and pad of every microphone input.
#[derive(Clone, Copy, Debug, Default)]
pub struct TravelerMicInputState {
    pub gain: [u8; 4],
    pub pad: [bool; 4],
}

/// What is to be written to the device.
#[derive(Clone, Copy, Debug)]
pub enum MicInputWrite {
    Gain([u8; 4]),
    Pad([bool; 4]),
}

/// Controls of the microphone inputs.
#[derive(Debug, Default)]
pub struct MicInputCtl(pub TravelerMicInputState);

/// The gains as values of a control element.
pub open spec fn gain_values(gain: Seq<u8>) -> Seq<i32> {
    Seq::new(gain.len(), |i: int| gain[i] as i32)
}

/// The gains that the first values of a control element stand for; a value
/// keeps its low eight bits.
pub open spec fn gains_of(vals: Seq<i32>) -> Seq<u8> {
    Seq::new(MIC_INPUT_COUNT as nat, |i: int| vals[i] as u8)
}

impl MicInputCtl {
    /// Takes over the state that was read from the device and tells the
    /// elements to add: one with the gain of every input and its scale in
    /// decibel, one with the pad of every input.
    pub fn load(&mut self, state: TravelerMicInputState) -> (elems: Vec<ElemDef>)
        ensures
            final(self).0 == state,
            elems@.len() == 2,
            elems@[0].name@ == MIC_GAIN_NAME@,
            elems@[0].iface == ElemIfaceType::Mixer,
            elems@[0].elem_count == 1,
            elems@[0].value_count == MIC_INPUT_COUNT,
            elems@[0].unlock,
            elems@[0].kind matches ElemKind::Int(range) && range.min == MIC_GAIN_MIN && range.max
                == MIC_GAIN_MAX && range.step == MIC_GAIN_STEP && range.tlv.is_some()
                && range.tlv->0@ == db_interval_data(GAIN_TLV_MIN, GAIN_TLV_MAX, true, false),
            elems@[1].name@ == MIC_PAD_NAME@,
            elems@[1].iface == ElemIfaceType::Mixer,
            elems@[1].elem_count == 1,
            elems@[1].value_count == MIC_INPUT_COUNT,
            elems@[1].unlock,
            elems@[1].kind is Bool,
    {
        self.cache(state);
        let mut elems: Vec<ElemDef> = Vec::new();
        elems.push(
            ElemDef {
                iface: ElemIfaceType::Mixer,
                name: MIC_GAIN_NAME,
                elem_count: 1,
                value_count: MIC_INPUT_COUNT,
                kind: ElemKind::Int(
                    IntRange {
                        min: MIC_GAIN_MIN as i32,
                        max: MIC_GAIN_MAX as i32,
                        step: MIC_GAIN_STEP as i32,
                        tlv: Some(db_interval_tlv(GAIN_TLV_MIN, GAIN_TLV_MAX, true, false)),
                    },
                ),
                unlock: true,
            },
        );
        elems.push(
            ElemDef {
                iface: ElemIfaceType::Mixer,
                name: MIC_PAD_NAME,
                elem_count: 1,
                value_count: MIC_INPUT_COUNT,
                kind: ElemKind::Bool,
                unlock: true,
            },
        );
        elems
    }

    /// Takes over the state that was read from the device.
    pub fn cache(&mut self, state: TravelerMicInputState)
        ensures
            final(self).0 == state,
    {
        self.0 = state;
    }

    /// The value of the element with the given name: the gains, the pads,
    /// or nothing for an element of another control.
    pub fn read(&self, elem_name: &str) -> (value: Option<ElemValue>)
        ensures
            elem_name@ == MIC_GAIN_NAME@ ==> value.is_some() && value->0@ == ElemValueView::Int(
                gain_values(self.0.gain@),
            ),
            elem_name@ == MIC_PAD_NAME@ ==> value.is_some() && value->0@ == ElemValueView::Bool(
                self.0.pad@,
            ),
            elem_name@ != MIC_GAIN_NAME@ && elem_name@ != MIC_PAD_NAME@ ==> value.is_none(),
    {
        proof {
            names_differ();
        }
        if is_named(elem_name, MIC_GAIN_NAME) {
            let mut vals: Vec<i32> = Vec::new();
            let mut i: usize = 0;
            while i < MIC_INPUT_COUNT
                invariant
                    i <= MIC_INPUT_COUNT,
                    vals@.len() == i,
                    forall|k: int| 0 <= k < i ==> vals@[k] == self.0.gain@[k] as i32,
                decreases MIC_INPUT_COUNT - i,
            {
                vals.push(self.0.gain[i] as i32);
                i = i + 1;
            }
            assert(vals@ =~= gain_values(self.0.gain@));
            Some(ElemValue::Int(vals))
        } else if is_named(elem_name, MIC_PAD_NAME) {
            let mut vals: Vec<bool> = Vec::new();
            let mut i: usize = 0;
            while i < MIC_INPUT_COUNT
                invariant
                    i <= MIC_INPUT_COUNT,
                    vals@.len() == i,
                    forall|k: int| 0 <= k < i ==> vals@[k] == self.0.pad@[k],
                decreases MIC_INPUT_COUNT - i,
            {
                vals.push(self.0.pad[i]);
                i = i + 1;
            }
            assert(vals@ =~= self.0.pad@);
            Some(ElemValue::Bool(vals))
        } else {
            None
        }
    }

    /// What a new value of the element with the given name makes of the
    /// microphone inputs: the gains or pads to write to the device, or
    /// nothing for an element of another control. The value needs one
    /// entry of the right kind for every input.
    pub fn write(&self, elem_name: &str, elem_value: &ElemValue) -> (change: Result<
        Option<MicInputWrite>,
        Error,
    >)
        ensures
            elem_name@ != MIC_GAIN_NAME@ && elem_name@ != MIC_PAD_NAME@ ==> change == Ok::<
                Option<MicInputWrite>,
                Error,
            >(None),
            elem_name@ == MIC_GAIN_NAME@ ==> match elem_value@ {
                ElemValueView::Int(vals) if vals.len() >= MIC_INPUT_COUNT => change matches Ok(
                    Some(MicInputWrite::Gain(gain)),
                ) && gain@ == gains_of(vals),
                ElemValueView::Int(vals) => change == Err::<Option<MicInputWrite>, Error>(
                    Error::InvalidArgument(Argument::ElemValue, vals.len() as usize),
                ),
                _ => change == Err::<Option<MicInputWrite>, Error>(
                    Error::InvalidArgument(Argument::ElemValue, 0),
                ),
            },
            elem_name@ == MIC_PAD_NAME@ ==> match elem_value@ {
                ElemValueView::Bool(vals) if vals.len() >= MIC_INPUT_COUNT => change matches Ok(
                    Some(MicInputWrite::Pad(pad)),
                ) && pad@ == vals.subrange(0, MIC_INPUT_COUNT as int),
                ElemValueView::Bool(vals) => change == Err::<Option<MicInputWrite>, Error>(
                    Error::InvalidArgument(Argument::ElemValue, vals.len() as usize),
                ),
                _ => change == Err::<Option<MicInputWrite>, Error>(
                    Error::InvalidArgument(Argument::ElemValue, 0),
                ),
            },
    {
        proof {
            names_differ();
        }
        if is_named(elem_name, MIC_GAIN_NAME) {
            match elem_value {
                ElemValue::Int(vals) => {
                    if vals.len() < MIC_INPUT_COUNT {
                        return Err(Error::InvalidArgument(Argument::ElemValue, vals.len()));
                    }
                    let gain: [u8; 4] = [
                        #[verifier::truncate] (vals[0] as u8),
                        #[verifier::truncate] (vals[1] as u8),
                        #[verifier::truncate] (vals[2] as u8),
                        #[verifier::truncate] (vals[3] as u8),
                    ];
                    assert(gain@ =~= gains_of(vals@));
                    Ok(Some(MicInputWrite::Gain(gain)))
                },
                _ => Err(Error::InvalidArgument(Argument::ElemValue, 0)),
            }
        } else if is_named(elem_name, MIC_PAD_NAME) {
            match elem_value {
                ElemValue::Bool(vals) => {
                    if vals.len() < MIC_INPUT_COUNT {
                        return Err(Error::InvalidArgument(Argument::ElemValue, vals.len()));
                    }
                    let pad: [bool; 4] = [vals[0], vals[1], vals[2], vals[3]];
                    assert(pad@ =~= vals@.subrange(0, MIC_INPUT_COUNT as int));
                    Ok(Some(MicInputWrite::Pad(pad)))
                },
                _ => Err(Error::InvalidArgument(Argument::ElemValue, 0)),
            }
        } else {
            Ok(None)
        }
    }

    /// Takes over what was written to the device.
    pub fn written(&mut self, change: MicInputWrite)
        ensures
            match change {
                MicInputWrite::Gain(gain) => final(self).0.gain == gain && final(self).0.pad == old(
                    self,
                ).0.pad,
                MicInputWrite::Pad(pad) => final(self).0.pad == pad && final(self).0.gain == old(
                    self,
                ).0.gain,
            },
    {
        match change {
            MicInputWrite::Gain(gain) => {
                self.0.gain = gain;
            },
            MicInputWrite::Pad(pad) => {
                self.0.pad = pad;
            },
        }
    }
}

/// The two elements have different names.
proof fn names_differ()
    ensures
        MIC_GAIN_NAME@ != MIC_PAD_NAME@,
{
    reveal_strlit("mic-gain-name");
    reveal_strlit("mic-pad-name");
    assert(MIC_GAIN_NAME@.len() == 13);
    assert(MIC_PAD_NAME@.len() == 12);
}

} // verus!
