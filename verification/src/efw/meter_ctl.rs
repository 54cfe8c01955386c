//! The elements that show what the board module detects and measures.

use vstd::prelude::*;
use vstd::slice::slice_to_vec;
use crate::elem::{is_named, ElemDef, ElemIfaceType, ElemKind, ElemValue, ElemValueView, IntRange};
use crate::error::Error;

verus! {

pub const CLK_DETECT: &'static str = "clock-detect";

pub const MIDI_IN_DETECT: &'static str = "midi-in-detect";

pub const MIDI_OUT_DETECT: &'static str = "midi-out-detect";

pub const INPUT_METERS: &'static str = "input-meter";

pub const OUTPUT_METERS: &'static str = "output-meter";

pub const GUITAR_STEREO_CONNECT: &'static str = "guitar-stereo-detect";

pub const GUITAR_HEX_SIGNAL: &'static str = "guitar-hex-signal-detect";

pub const GUITAR_CHARGE_STATE: &'static str = "guitar-charge-state-detect";

pub const COEF_MIN: i32 = 0;

pub const COEF_MAX: i32 = 0x007fffff;

pub const COEF_STEP: i32 = 1;

/// Number of MIDI ports of a direction that the meters tell of.
pub const MIDI_PORT_COUNT: usize = 2;

/// What of the hardware decides on the elements.
#[derive(Clone, Copy, Debug)]
pub struct HwInfo {
    /// Number of sources of the clock.
    pub clk_src_count: usize,
    pub mixer_captures: usize,
    pub mixer_playbacks: usize,
    pub midi_inputs: usize,
    pub midi_outputs: usize,
    /// Whether the unit is a robot guitar.
    pub robot_guitar: bool,
    /// Whether the unit charges a guitar.
    pub guitar_charging: bool,
}

/// What the board module detects and measures.
#[derive(Debug)]
pub struct HwMeter {
    /// For every source of the clock, whether its signal is detected.
    pub detected_clk_srcs: Vec<bool>,
    pub detected_midi_inputs: [bool; 2],
    pub detected_midi_outputs: [bool; 2],
    pub guitar_charging: bool,
    pub guitar_stereo_connect: bool,
    pub guitar_hex_signal: bool,
    pub phys_output_meters: Vec<i32>,
    pub phys_input_meters: Vec<i32>,
}

/// The elements of the meters.
#[derive(Debug)]
pub struct MeterCtl {
    pub meters: Option<HwMeter>,
    pub midi_inputs: usize,
    pub midi_outputs: usize,
}

/// The first switches of the ports of one direction, as many as the unit
/// has ports and the meters tell of.
pub open spec fn midi_values(detected: Seq<bool>, ports: usize) -> Seq<bool> {
    detected.subrange(
        0,
        if ports < MIDI_PORT_COUNT {
            ports as int
        } else {
            MIDI_PORT_COUNT as int
        },
    )
}

/// The names of the elements for the given hardware, in the order in which
/// they are added.
pub open spec fn meter_elem_names(hwinfo: HwInfo) -> Seq<Seq<char>> {
    seq![CLK_DETECT@] + (if hwinfo.midi_inputs > 0 {
        seq![MIDI_IN_DETECT@]
    } else {
        Seq::empty()
    }) + (if hwinfo.midi_outputs > 0 {
        seq![MIDI_OUT_DETECT@]
    } else {
        Seq::empty()
    }) + seq![INPUT_METERS@, OUTPUT_METERS@] + (if hwinfo.robot_guitar {
        seq![GUITAR_STEREO_CONNECT@, GUITAR_HEX_SIGNAL@]
    } else {
        Seq::empty()
    }) + (if hwinfo.guitar_charging {
        seq![GUITAR_CHARGE_STATE@]
    } else {
        Seq::empty()
    })
}

/// The names of elements.
pub open spec fn names_of(elems: Seq<ElemDef>) -> Seq<Seq<char>> {
    Seq::new(elems.len(), |i: int| elems[i].name@)
}

/// A group of switches that applications cannot change.
fn switches(iface: ElemIfaceType, name: &'static str, value_count: usize) -> (elem: ElemDef)
    ensures
        elem.name@ == name@,
        elem.iface == iface,
        elem.elem_count == 1,
        elem.value_count == value_count,
        elem.kind is Bool,
        !elem.unlock,
{
    ElemDef { iface, name, elem_count: 1, value_count, kind: ElemKind::Bool, unlock: false }
}

/// A group of meters that applications cannot change.
fn coefficients(name: &'static str, value_count: usize) -> (elem: ElemDef)
    ensures
        elem.name@ == name@,
        elem.iface == ElemIfaceType::Mixer,
        elem.elem_count == 1,
        elem.value_count == value_count,
        elem.kind matches ElemKind::Int(range) && range.min == COEF_MIN && range.max == COEF_MAX
            && range.step == COEF_STEP && range.tlv.is_none(),
        !elem.unlock,
{
    ElemDef {
        iface: ElemIfaceType::Mixer,
        name,
        elem_count: 1,
        value_count,
        kind: ElemKind::Int(IntRange { min: COEF_MIN, max: COEF_MAX, step: COEF_STEP, tlv: None }),
        unlock: false,
    }
}

impl MeterCtl {
    /// Meters of a unit that was not loaded yet.
    pub fn new() -> (ctl: MeterCtl)
        ensures
            ctl.meters.is_none(),
            ctl.midi_inputs == 0,
            ctl.midi_outputs == 0,
    {
        MeterCtl { meters: None, midi_inputs: 0, midi_outputs: 0 }
    }

    /// Prepares the meters for the hardware and tells the elements to add:
    /// the detection of every source of the clock, that of the MIDI ports
    /// where there are any, the meters of inputs and outputs, and what a
    /// guitar lets detect.
    pub fn load(&mut self, hwinfo: &HwInfo) -> (elems: Vec<ElemDef>)
        ensures
            names_of(elems@) == meter_elem_names(*hwinfo),
            forall|i: int| 0 <= i < elems@.len() ==> !(#[trigger] elems@[i]).unlock,
            final(self).midi_inputs == hwinfo.midi_inputs,
            final(self).midi_outputs == hwinfo.midi_outputs,
            final(self).meters matches Some(meters) && meters.detected_clk_srcs@ == Seq::new(
                hwinfo.clk_src_count as nat,
                |i: int| false,
            ) && meters.phys_input_meters@ == Seq::new(
                hwinfo.mixer_captures as nat,
                |i: int| 0i32,
            ) && meters.phys_output_meters@ == Seq::new(
                hwinfo.mixer_playbacks as nat,
                |i: int| 0i32,
            ),
            elems@[0].value_count == hwinfo.clk_src_count,
    {
        let detected_clk_srcs: Vec<bool> = vec![false; hwinfo.clk_src_count];
        let phys_input_meters: Vec<i32> = vec![0; hwinfo.mixer_captures];
        let phys_output_meters: Vec<i32> = vec![0; hwinfo.mixer_playbacks];
        assert(detected_clk_srcs@ =~= Seq::new(hwinfo.clk_src_count as nat, |i: int| false));
        assert(phys_input_meters@ =~= Seq::new(hwinfo.mixer_captures as nat, |i: int| 0i32));
        assert(phys_output_meters@ =~= Seq::new(hwinfo.mixer_playbacks as nat, |i: int| 0i32));
        self.meters = Some(
            HwMeter {
                detected_clk_srcs,
                detected_midi_inputs: [false, false],
                detected_midi_outputs: [false, false],
                guitar_charging: false,
                guitar_stereo_connect: false,
                guitar_hex_signal: false,
                phys_output_meters,
                phys_input_meters,
            },
        );
        self.midi_inputs = hwinfo.midi_inputs;
        self.midi_outputs = hwinfo.midi_outputs;

        let mut elems: Vec<ElemDef> = Vec::new();
        elems.push(switches(ElemIfaceType::Mixer, CLK_DETECT, hwinfo.clk_src_count));
        if hwinfo.midi_inputs > 0 {
            elems.push(switches(ElemIfaceType::Mixer, MIDI_IN_DETECT, hwinfo.midi_inputs));
        }
        if hwinfo.midi_outputs > 0 {
            elems.push(switches(ElemIfaceType::Mixer, MIDI_OUT_DETECT, hwinfo.midi_outputs));
        }
        elems.push(coefficients(INPUT_METERS, hwinfo.mixer_captures));
        elems.push(coefficients(OUTPUT_METERS, hwinfo.mixer_playbacks));
        if hwinfo.robot_guitar {
            elems.push(switches(ElemIfaceType::Card, GUITAR_STEREO_CONNECT, 1));
            elems.push(switches(ElemIfaceType::Card, GUITAR_HEX_SIGNAL, 1));
        }
        if hwinfo.guitar_charging {
            elems.push(switches(ElemIfaceType::Card, GUITAR_CHARGE_STATE, 1));
        }
        assert(names_of(elems@) =~= meter_elem_names(*hwinfo));
        elems
    }

    /// Takes over what was read from the unit. Meters that were not
    /// prepared take nothing.
    pub fn monitor_unit(&mut self, read: HwMeter) -> (done: Result<(), Error>)
        ensures
            old(self).meters.is_none() ==> done == Err::<(), Error>(Error::MeteringNotPrepared)
                && final(self).meters.is_none(),
            old(self).meters.is_some() ==> done is Ok && final(self).meters == Some(read),
            final(self).midi_inputs == old(self).midi_inputs,
            final(self).midi_outputs == old(self).midi_outputs,
    {
        if self.meters.is_none() {
            return Err(Error::MeteringNotPrepared);
        }
        self.meters = Some(read);
        Ok(())
    }

    /// The value that the element with the given name shows, if the element
    /// belongs to the meters and the meters are prepared.
    pub open spec fn shown(&self, elem_name: Seq<char>) -> Option<ElemValueView> {
        match self.meters {
            None => None,
            Some(meters) => if elem_name == CLK_DETECT@ {
                Some(ElemValueView::Bool(meters.detected_clk_srcs@))
            } else if elem_name == MIDI_IN_DETECT@ {
                Some(ElemValueView::Bool(midi_values(meters.detected_midi_inputs@, self.midi_inputs)))
            } else if elem_name == MIDI_OUT_DETECT@ {
                Some(
                    ElemValueView::Bool(
                        midi_values(meters.detected_midi_outputs@, self.midi_outputs),
                    ),
                )
            } else if elem_name == INPUT_METERS@ {
                Some(ElemValueView::Int(meters.phys_input_meters@))
            } else if elem_name == OUTPUT_METERS@ {
                Some(ElemValueView::Int(meters.phys_output_meters@))
            } else if elem_name == GUITAR_STEREO_CONNECT@ {
                Some(ElemValueView::Bool(seq![meters.guitar_stereo_connect]))
            } else if elem_name == GUITAR_HEX_SIGNAL@ {
                Some(ElemValueView::Bool(seq![meters.guitar_hex_signal]))
            } else if elem_name == GUITAR_CHARGE_STATE@ {
                Some(ElemValueView::Bool(seq![meters.guitar_charging]))
            } else {
                None
            },
        }
    }

    /// What the element with the given name shows.
    pub fn monitor_elems(&self, elem_name: &str) -> (value: Option<ElemValue>)
        ensures
            match self.shown(elem_name@) {
                Some(v) => value.is_some() && value->0@ == v,
                None => value.is_none(),
            },
    {
        match &self.meters {
            None => None,
            Some(meters) => {
                if is_named(elem_name, CLK_DETECT) {
                    Some(ElemValue::Bool(slice_to_vec(meters.detected_clk_srcs.as_slice())))
                } else if is_named(elem_name, MIDI_IN_DETECT) {
                    Some(ElemValue::Bool(midi_switches(&meters.detected_midi_inputs, self.midi_inputs)))
                } else if is_named(elem_name, MIDI_OUT_DETECT) {
                    Some(
                        ElemValue::Bool(
                            midi_switches(&meters.detected_midi_outputs, self.midi_outputs),
                        ),
                    )
                } else if is_named(elem_name, INPUT_METERS) {
                    Some(ElemValue::Int(slice_to_vec(meters.phys_input_meters.as_slice())))
                } else if is_named(elem_name, OUTPUT_METERS) {
                    Some(ElemValue::Int(slice_to_vec(meters.phys_output_meters.as_slice())))
                } else if is_named(elem_name, GUITAR_STEREO_CONNECT) {
                    Some(ElemValue::Bool(one_switch(meters.guitar_stereo_connect)))
                } else if is_named(elem_name, GUITAR_HEX_SIGNAL) {
                    Some(ElemValue::Bool(one_switch(meters.guitar_hex_signal)))
                } else if is_named(elem_name, GUITAR_CHARGE_STATE) {
                    Some(ElemValue::Bool(one_switch(meters.guitar_charging)))
                } else {
                    None
                }
            },
        }
    }
}

/// A single switch as the values of an element.
fn one_switch(state: bool) -> (vals: Vec<bool>)
    ensures
        vals@ == seq![state],
{
    let mut vals: Vec<bool> = Vec::new();
    vals.push(state);
    assert(vals@ =~= seq![state]);
    vals
}

/// The switches of the ports of one direction.
fn midi_switches(detected: &[bool; 2], ports: usize) -> (vals: Vec<bool>)
    ensures
        vals@ == midi_values(detected@, ports),
{
    let count = if ports < MIDI_PORT_COUNT {
        ports
    } else {
        MIDI_PORT_COUNT
    };
    let mut vals: Vec<bool> = Vec::new();
    let mut i: usize = 0;
    while i < count
        invariant
            i <= count <= MIDI_PORT_COUNT,
            vals@.len() == i,
            forall|k: int| 0 <= k < i ==> vals@[k] == detected@[k],
        decreases count - i,
    {
        vals.push(detected[i]);
        i = i + 1;
    }
    assert(vals@ =~= midi_values(detected@, ports));
    vals
}

} // verus!
