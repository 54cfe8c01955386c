//! The controls of the Quatafire 610: gain and balance of its inputs and
//! volume of its outputs, each a feature control of the first audio
//! subunit.

use vstd::prelude::*;
use crate::audio::{AudioCh, FeatureCtl, NEG_INFINITY};
use crate::elem::{
    db_interval_data, db_interval_tlv, is_named, ElemDef, ElemIfaceType, ElemKind, IntRange,
};
use crate::error::{Argument, Error};
use crate::frame::AvcCmdType;
use crate::level::{
    build_feature_command, confirmed, feature_command, feature_outcome, read_feature_response,
    VALUE_UNSET,
};

verus! {

/// Name of the element for the gain of the inputs.
pub const INPUT_GAIN_NAME: &'static str = "input-gain";

/// Name of the element for the balance of the first pair of inputs.
pub const INPUT_BALANCE_NAME: &'static str = "input-pan";

/// Name of the element for the volume of the outputs.
pub const OUTPUT_VOL_NAME: &'static str = "output-volume";

/// The value of an element that mutes.
pub const CTL_VALUE_MUTE: i32 = -9999999;

pub const GAIN_MIN: i32 = -0x8000;

pub const GAIN_MAX: i32 = 0;

pub const GAIN_STEP: i32 = 1;

/// The lower end of the scale of gain and volume, in hundredths of a
/// decibel.
pub const GAIN_TLV_MIN: i32 = -12800;

pub const BALANCE_MIN: i32 = -0x8000;

pub const BALANCE_MAX: i32 = 0x7ffe;

pub const BALANCE_STEP: i32 = 1;

/// Number of inputs.
pub const INPUT_COUNT: usize = 6;

/// Number of inputs with a balance.
pub const BALANCE_COUNT: usize = 2;

/// Number of outputs.
pub const OUTPUT_COUNT: usize = 8;

/// The function block of the outputs.
pub const OUTPUT_FB_ID: u8 = 4;

/// The value of an element for a level: the lowest level mutes.
pub open spec fn elem_of_level(vol: i16) -> i32 {
    if vol == NEG_INFINITY {
        CTL_VALUE_MUTE
    } else {
        vol as i32
    }
}

/// The level for the value of an element: the value that mutes is the
/// lowest level, and any other value keeps its low sixteen bits.
pub open spec fn level_of_elem(val: i32) -> i16 {
    if val == CTL_VALUE_MUTE {
        NEG_INFINITY
    } else {
        val as i16
    }
}

/// The value of an element for a level.
pub fn level_to_elem(vol: i16) -> (val: i32)
    ensures
        val == elem_of_level(vol),
{
    if vol == NEG_INFINITY {
        CTL_VALUE_MUTE
    } else {
        vol as i32
    }
}

/// The level for the value of an element.
pub fn elem_to_level(val: i32) -> (vol: i16)
    ensures
        vol == level_of_elem(val),
{
    if val == CTL_VALUE_MUTE {
        NEG_INFINITY
    } else {
        #[verifier::truncate]
        (val as i16)
    }
}

/// A level is the level of its element value.
pub proof fn level_elem_round_trip(vol: i16)
    ensures
        level_of_elem(elem_of_level(vol)) == vol,
{
    if vol != NEG_INFINITY {
        assert((vol as i32) as i16 == vol) by (bit_vector);
    }
}

/// Function block and channel of the inputs: three function blocks with a
/// pair of channels each.
pub open spec fn input_entries() -> Seq<(u8, AudioCh)> {
    Seq::new(INPUT_COUNT as nat, |idx: int| ((idx / 2 + 1) as u8, AudioCh::Each((idx % 2) as u8)))
}

/// Function block and channel of the outputs: one function block with
/// eight channels.
pub open spec fn output_entries() -> Seq<(u8, AudioCh)> {
    Seq::new(OUTPUT_COUNT as nat, |idx: int| (OUTPUT_FB_ID, AudioCh::Each(idx as u8)))
}

/// Builds the table of the inputs.
fn input_table() -> (entries: Vec<(u8, AudioCh)>)
    ensures
        entries@ == input_entries(),
{
    let mut entries: Vec<(u8, AudioCh)> = Vec::new();
    let mut idx: usize = 0;
    while idx < INPUT_COUNT
        invariant
            idx <= INPUT_COUNT,
            entries@.len() == idx,
            forall|k: int| 0 <= k < idx ==> entries@[k] == input_entries()[k],
        decreases INPUT_COUNT - idx,
    {
        entries.push(((idx / 2 + 1) as u8, AudioCh::Each((idx % 2) as u8)));
        idx = idx + 1;
    }
    assert(entries@ =~= input_entries());
    entries
}

/// Builds the table of the outputs.
fn output_table() -> (entries: Vec<(u8, AudioCh)>)
    ensures
        entries@ == output_entries(),
{
    let mut entries: Vec<(u8, AudioCh)> = Vec::new();
    let mut idx: usize = 0;
    while idx < OUTPUT_COUNT
        invariant
            idx <= OUTPUT_COUNT,
            entries@.len() == idx,
            forall|k: int| 0 <= k < idx ==> entries@[k] == output_entries()[k],
        decreases OUTPUT_COUNT - idx,
    {
        entries.push((OUTPUT_FB_ID, AudioCh::Each(idx as u8)));
        idx = idx + 1;
    }
    assert(entries@ =~= output_entries());
    entries
}

/// The control that an element of the inputs stands for, with the number
/// of its values; none for an element of another control.
pub open spec fn input_ctl_of(elem_name: Seq<char>) -> Option<(FeatureCtl, usize)> {
    if elem_name == INPUT_GAIN_NAME@ {
        Some((FeatureCtl::Volume(VALUE_UNSET), INPUT_COUNT))
    } else if elem_name == INPUT_BALANCE_NAME@ {
        Some((FeatureCtl::LrBalance(VALUE_UNSET), BALANCE_COUNT))
    } else {
        None
    }
}

/// The control with the value that an element value asks for.
pub open spec fn ctl_with(ctl: FeatureCtl, val: i32) -> FeatureCtl {
    match ctl {
        FeatureCtl::Volume(_) => FeatureCtl::Volume(level_of_elem(val)),
        FeatureCtl::LrBalance(_) => FeatureCtl::LrBalance(val as i16),
        FeatureCtl::Mute(_) => FeatureCtl::Mute(val != 0),
    }
}

/// The element value of what a response reports for a control.
pub open spec fn elem_of(reported: Result<FeatureCtl, Error>) -> Result<i32, Error> {
    match reported {
        Ok(FeatureCtl::Volume(vol)) => Ok(elem_of_level(vol)),
        Ok(FeatureCtl::LrBalance(balance)) => Ok(balance as i32),
        Ok(FeatureCtl::Mute(mute)) => Ok(
            if mute {
                1i32
            } else {
                0i32
            },
        ),
        Err(e) => Err(e),
    }
}

/// The frame that asks for value `idx` of an element whose control and
/// table are given, or the failure for a value that the element lacks.
pub open spec fn value_query(
    entries: Seq<(u8, AudioCh)>,
    ctl: FeatureCtl,
    count: usize,
    idx: usize,
) -> Result<Seq<u8>, Error> {
    if idx >= count {
        Err(Error::InvalidArgument(Argument::ElemValue, idx))
    } else {
        feature_command(entries, idx, AvcCmdType::Status, ctl)
    }
}

/// The value `idx` of an element that a response reports.
pub open spec fn value_reported(
    entries: Seq<(u8, AudioCh)>,
    ctl: FeatureCtl,
    count: usize,
    idx: usize,
    frame: Seq<u8>,
) -> Result<i32, Error> {
    if idx >= count {
        Err(Error::InvalidArgument(Argument::ElemValue, idx))
    } else {
        elem_of(feature_outcome(entries, idx, AvcCmdType::Status, ctl, frame))
    }
}

/// The frame that sets value `idx` of an element to `val`.
pub open spec fn value_setting(
    entries: Seq<(u8, AudioCh)>,
    ctl: FeatureCtl,
    count: usize,
    idx: usize,
    val: i32,
) -> Result<Seq<u8>, Error> {
    if idx >= count {
        Err(Error::InvalidArgument(Argument::ElemValue, idx))
    } else {
        feature_command(entries, idx, AvcCmdType::Control, ctl_with(ctl, val))
    }
}

/// Whether a response confirms that value `idx` of an element is `val`.
pub open spec fn value_confirmed(
    entries: Seq<(u8, AudioCh)>,
    ctl: FeatureCtl,
    count: usize,
    idx: usize,
    val: i32,
    frame: Seq<u8>,
) -> Result<(), Error> {
    if idx >= count {
        Err(Error::InvalidArgument(Argument::ElemValue, idx))
    } else {
        confirmed(feature_outcome(entries, idx, AvcCmdType::Control, ctl_with(ctl, val), frame))
    }
}

/// The value of a control as element value.
fn ctl_to_elem(ctl: FeatureCtl) -> (val: i32)
    ensures
        Ok::<i32, Error>(val) == elem_of(Ok(ctl)),
{
    match ctl {
        FeatureCtl::Volume(vol) => level_to_elem(vol),
        FeatureCtl::LrBalance(balance) => balance as i32,
        FeatureCtl::Mute(mute) => if mute {
            1
        } else {
            0
        },
    }
}

/// The control with the value of an element.
fn elem_to_ctl(ctl: FeatureCtl, val: i32) -> (set: FeatureCtl)
    ensures
        set == ctl_with(ctl, val),
{
    match ctl {
        FeatureCtl::Volume(_) => FeatureCtl::Volume(elem_to_level(val)),
        FeatureCtl::LrBalance(_) => FeatureCtl::LrBalance(#[verifier::truncate] (val as i16)),
        FeatureCtl::Mute(_) => FeatureCtl::Mute(val != 0),
    }
}

/// Gain and balance of the inputs.
#[derive(Default, Debug)]
pub struct InputCtl;

impl InputCtl {
    /// The control and the number of values of an element of the inputs.
    fn ctl_of(elem_name: &str) -> (ctl: Option<(FeatureCtl, usize)>)
        ensures
            ctl == input_ctl_of(elem_name@),
    {
        if is_named(elem_name, INPUT_GAIN_NAME) {
            Some((FeatureCtl::Volume(VALUE_UNSET), INPUT_COUNT))
        } else if is_named(elem_name, INPUT_BALANCE_NAME) {
            Some((FeatureCtl::LrBalance(VALUE_UNSET), BALANCE_COUNT))
        } else {
            None
        }
    }

    /// The elements to add: the gain of every input with its scale in
    /// decibel, and the balance of the first two inputs.
    pub fn load(&self) -> (elems: Vec<ElemDef>)
        ensures
            elems@.len() == 2,
            elems@[0].name@ == INPUT_GAIN_NAME@,
            elems@[0].iface == ElemIfaceType::Mixer,
            elems@[0].elem_count == 1,
            elems@[0].value_count == INPUT_COUNT,
            elems@[0].unlock,
            elems@[0].kind matches ElemKind::Int(range) && range.min == GAIN_MIN && range.max
                == GAIN_MAX && range.step == GAIN_STEP && range.tlv.is_some() && range.tlv->0@
                == db_interval_data(GAIN_TLV_MIN, 0, false, false),
            elems@[1].name@ == INPUT_BALANCE_NAME@,
            elems@[1].iface == ElemIfaceType::Mixer,
            elems@[1].elem_count == 1,
            elems@[1].value_count == BALANCE_COUNT,
            elems@[1].unlock,
            elems@[1].kind matches ElemKind::Int(range) && range.min == BALANCE_MIN && range.max
                == BALANCE_MAX && range.step == BALANCE_STEP && range.tlv.is_none(),
    {
        let mut elems: Vec<ElemDef> = Vec::new();
        elems.push(
            ElemDef {
                iface: ElemIfaceType::Mixer,
                name: INPUT_GAIN_NAME,
                elem_count: 1,
                value_count: INPUT_COUNT,
                kind: ElemKind::Int(
                    IntRange {
                        min: GAIN_MIN,
                        max: GAIN_MAX,
                        step: GAIN_STEP,
                        tlv: Some(db_interval_tlv(GAIN_TLV_MIN, 0, false, false)),
                    },
                ),
                unlock: true,
            },
        );
        elems.push(
            ElemDef {
                iface: ElemIfaceType::Mixer,
                name: INPUT_BALANCE_NAME,
                elem_count: 1,
                value_count: BALANCE_COUNT,
                kind: ElemKind::Int(
                    IntRange { min: BALANCE_MIN, max: BALANCE_MAX, step: BALANCE_STEP, tlv: None },
                ),
                unlock: true,
            },
        );
        elems
    }

    /// The status command for value `idx` of the element with the given
    /// name; nothing for an element of another control.
    pub fn read_command(&self, elem_name: &str, idx: usize) -> (frame: Result<
        Option<Vec<u8>>,
        Error,
    >)
        ensures
            match input_ctl_of(elem_name@) {
                None => frame == Ok::<Option<Vec<u8>>, Error>(None),
                Some((ctl, count)) => match value_query(input_entries(), ctl, count, idx) {
                    Ok(bytes) => frame matches Ok(Some(f)) && f@ == bytes,
                    Err(e) => frame == Err::<Option<Vec<u8>>, Error>(e),
                },
            },
    {
        match InputCtl::ctl_of(elem_name) {
            None => Ok(None),
            Some((ctl, count)) => {
                if idx >= count {
                    return Err(Error::InvalidArgument(Argument::ElemValue, idx));
                }
                let entries = input_table();
                let frame = build_feature_command(
                    entries.as_slice(),
                    idx,
                    AvcCmdType::Status,
                    ctl,
                )?;
                Ok(Some(frame))
            },
        }
    }

    /// Reads the response to that command: value `idx` of the element.
    pub fn read(&self, elem_name: &str, idx: usize, response_frame: &[u8]) -> (val: Result<
        Option<i32>,
        Error,
    >)
        ensures
            match input_ctl_of(elem_name@) {
                None => val == Ok::<Option<i32>, Error>(None),
                Some((ctl, count)) => match value_reported(
                    input_entries(),
                    ctl,
                    count,
                    idx,
                    response_frame@,
                ) {
                    Ok(v) => val == Ok::<Option<i32>, Error>(Some(v)),
                    Err(e) => val == Err::<Option<i32>, Error>(e),
                },
            },
    {
        match InputCtl::ctl_of(elem_name) {
            None => Ok(None),
            Some((ctl, count)) => {
                if idx >= count {
                    return Err(Error::InvalidArgument(Argument::ElemValue, idx));
                }
                let entries = input_table();
                let reported = read_feature_response(
                    entries.as_slice(),
                    idx,
                    AvcCmdType::Status,
                    ctl,
                    response_frame,
                )?;
                Ok(Some(ctl_to_elem(reported)))
            },
        }
    }

    /// The control command that sets value `idx` of the element with the
    /// given name to `val`; nothing for an element of another control.
    pub fn write_command(&self, elem_name: &str, idx: usize, val: i32) -> (frame: Result<
        Option<Vec<u8>>,
        Error,
    >)
        ensures
            match input_ctl_of(elem_name@) {
                None => frame == Ok::<Option<Vec<u8>>, Error>(None),
                Some((ctl, count)) => match value_setting(input_entries(), ctl, count, idx, val) {
                    Ok(bytes) => frame matches Ok(Some(f)) && f@ == bytes,
                    Err(e) => frame == Err::<Option<Vec<u8>>, Error>(e),
                },
            },
    {
        match InputCtl::ctl_of(elem_name) {
            None => Ok(None),
            Some((ctl, count)) => {
                if idx >= count {
                    return Err(Error::InvalidArgument(Argument::ElemValue, idx));
                }
                let entries = input_table();
                let frame = build_feature_command(
                    entries.as_slice(),
                    idx,
                    AvcCmdType::Control,
                    elem_to_ctl(ctl, val),
                )?;
                Ok(Some(frame))
            },
        }
    }

    /// Reads the response to that command; tells whether the element
    /// belongs to the inputs.
    pub fn write(&self, elem_name: &str, idx: usize, val: i32, response_frame: &[u8]) -> (done:
        Result<bool, Error>)
        ensures
            match input_ctl_of(elem_name@) {
                None => done == Ok::<bool, Error>(false),
                Some((ctl, count)) => match value_confirmed(
                    input_entries(),
                    ctl,
                    count,
                    idx,
                    val,
                    response_frame@,
                ) {
                    Ok(()) => done == Ok::<bool, Error>(true),
                    Err(e) => done == Err::<bool, Error>(e),
                },
            },
    {
        match InputCtl::ctl_of(elem_name) {
            None => Ok(false),
            Some((ctl, count)) => {
                if idx >= count {
                    return Err(Error::InvalidArgument(Argument::ElemValue, idx));
                }
                let entries = input_table();
                match read_feature_response(
                    entries.as_slice(),
                    idx,
                    AvcCmdType::Control,
                    elem_to_ctl(ctl, val),
                    response_frame,
                ) {
                    Ok(_) => Ok(true),
                    Err(e) => Err(e),
                }
            },
        }
    }
}

/// The control that an element of the outputs stands for, with the number
/// of its values; none for an element of another control.
pub open spec fn output_ctl_of(elem_name: Seq<char>) -> Option<(FeatureCtl, usize)> {
    if elem_name == OUTPUT_VOL_NAME@ {
        Some((FeatureCtl::Volume(VALUE_UNSET), OUTPUT_COUNT))
    } else {
        None
    }
}

/// Volume of the outputs.
#[derive(Default, Debug)]
pub struct OutputCtl;

impl OutputCtl {
    /// The element to add: the volume of the outputs with its scale in
    /// decibel. The element is announced with as many values as there are
    /// inputs.
    pub fn load(&self) -> (elem: ElemDef)
        ensures
            elem.name@ == OUTPUT_VOL_NAME@,
            elem.iface == ElemIfaceType::Mixer,
            elem.elem_count == 1,
            elem.value_count == INPUT_COUNT,
            elem.unlock,
            elem.kind matches ElemKind::Int(range) && range.min == GAIN_MIN && range.max == GAIN_MAX
                && range.step == GAIN_STEP && range.tlv.is_some() && range.tlv->0@
                == db_interval_data(GAIN_TLV_MIN, 0, false, false),
    {
        ElemDef {
            iface: ElemIfaceType::Mixer,
            name: OUTPUT_VOL_NAME,
            elem_count: 1,
            value_count: INPUT_COUNT,
            kind: ElemKind::Int(
                IntRange {
                    min: GAIN_MIN,
                    max: GAIN_MAX,
                    step: GAIN_STEP,
                    tlv: Some(db_interval_tlv(GAIN_TLV_MIN, 0, false, false)),
                },
            ),
            unlock: true,
        }
    }

    /// The status command for the volume of output `idx`; nothing for an
    /// element of another control.
    pub fn read_command(&self, elem_name: &str, idx: usize) -> (frame: Result<
        Option<Vec<u8>>,
        Error,
    >)
        ensures
            match output_ctl_of(elem_name@) {
                None => frame == Ok::<Option<Vec<u8>>, Error>(None),
                Some((ctl, count)) => match value_query(output_entries(), ctl, count, idx) {
                    Ok(bytes) => frame matches Ok(Some(f)) && f@ == bytes,
                    Err(e) => frame == Err::<Option<Vec<u8>>, Error>(e),
                },
            },
    {
        if !is_named(elem_name, OUTPUT_VOL_NAME) {
            return Ok(None);
        }
        if idx >= OUTPUT_COUNT {
            return Err(Error::InvalidArgument(Argument::ElemValue, idx));
        }
        let entries = output_table();
        let frame = build_feature_command(
            entries.as_slice(),
            idx,
            AvcCmdType::Status,
            FeatureCtl::Volume(VALUE_UNSET),
        )?;
        Ok(Some(frame))
    }

    /// Reads the response to that command: the volume of output `idx`.
    pub fn read(&self, elem_name: &str, idx: usize, response_frame: &[u8]) -> (val: Result<
        Option<i32>,
        Error,
    >)
        ensures
            match output_ctl_of(elem_name@) {
                None => val == Ok::<Option<i32>, Error>(None),
                Some((ctl, count)) => match value_reported(
                    output_entries(),
                    ctl,
                    count,
                    idx,
                    response_frame@,
                ) {
                    Ok(v) => val == Ok::<Option<i32>, Error>(Some(v)),
                    Err(e) => val == Err::<Option<i32>, Error>(e),
                },
            },
    {
        if !is_named(elem_name, OUTPUT_VOL_NAME) {
            return Ok(None);
        }
        if idx >= OUTPUT_COUNT {
            return Err(Error::InvalidArgument(Argument::ElemValue, idx));
        }
        let entries = output_table();
        let reported = read_feature_response(
            entries.as_slice(),
            idx,
            AvcCmdType::Status,
            FeatureCtl::Volume(VALUE_UNSET),
            response_frame,
        )?;
        Ok(Some(ctl_to_elem(reported)))
    }

    /// The control command that sets the volume of output `idx` to `val`;
    /// nothing for an element of another control.
    pub fn write_command(&self, elem_name: &str, idx: usize, val: i32) -> (frame: Result<
        Option<Vec<u8>>,
        Error,
    >)
        ensures
            match output_ctl_of(elem_name@) {
                None => frame == Ok::<Option<Vec<u8>>, Error>(None),
                Some((ctl, count)) => match value_setting(output_entries(), ctl, count, idx, val) {
                    Ok(bytes) => frame matches Ok(Some(f)) && f@ == bytes,
                    Err(e) => frame == Err::<Option<Vec<u8>>, Error>(e),
                },
            },
    {
        if !is_named(elem_name, OUTPUT_VOL_NAME) {
            return Ok(None);
        }
        if idx >= OUTPUT_COUNT {
            return Err(Error::InvalidArgument(Argument::ElemValue, idx));
        }
        let entries = output_table();
        let frame = build_feature_command(
            entries.as_slice(),
            idx,
            AvcCmdType::Control,
            FeatureCtl::Volume(elem_to_level(val)),
        )?;
        Ok(Some(frame))
    }

    /// Reads the response to that command; tells whether the element
    /// belongs to the outputs.
    pub fn write(&self, elem_name: &str, idx: usize, val: i32, response_frame: &[u8]) -> (done:
        Result<bool, Error>)
        ensures
            match output_ctl_of(elem_name@) {
                None => done == Ok::<bool, Error>(false),
                Some((ctl, count)) => match value_confirmed(
                    output_entries(),
                    ctl,
                    count,
                    idx,
                    val,
                    response_frame@,
                ) {
                    Ok(()) => done == Ok::<bool, Error>(true),
                    Err(e) => done == Err::<bool, Error>(e),
                },
            },
    {
        if !is_named(elem_name, OUTPUT_VOL_NAME) {
            return Ok(false);
        }
        if idx >= OUTPUT_COUNT {
            return Err(Error::InvalidArgument(Argument::ElemValue, idx));
        }
        let entries = output_table();
        match read_feature_response(
            entries.as_slice(),
            idx,
            AvcCmdType::Control,
            FeatureCtl::Volume(elem_to_level(val)),
            response_frame,
        ) {
            Ok(_) => Ok(true),
            Err(e) => Err(e),
        }
    }
}

} // verus!
