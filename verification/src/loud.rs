//! The control that is specific to the LINK.FireWire: the source of
//! capture.

use vstd::prelude::*;
use crate::elem::{is_named, ElemDef, ElemIfaceType, ElemKind, ElemValue, ElemValueView};
use crate::error::{Argument, Error};

verus! {

/// The source of capture.
#[derive(Clone, Copy, Debug, PartialEq, Eq, Structural)]
pub enum LinkFwInputSource {
    Analog,
    Digital,
}

/// Name of the element for the source of capture.
pub const CAPTURE_SOURCE_NAME: &'static str = "capture-source";

/// Label of the analog source.
pub const ANALOG_LABEL: &'static str = "Analog-input";

/// Label of the digital source.
pub const DIGITAL_LABEL: &'static str = "S/PDIF-input";

/// The label of a source of capture.
pub fn input_source_to_str(src: &LinkFwInputSource) -> (label: &'static str)
    ensures
        *src == LinkFwInputSource::Analog ==> label@ == ANALOG_LABEL@,
        *src == LinkFwInputSource::Digital ==> label@ == DIGITAL_LABEL@,
{
    match src {
        LinkFwInputSource::Analog => ANALOG_LABEL,
        LinkFwInputSource::Digital => DIGITAL_LABEL,
    }
}

/// The sources of capture in the order of the items of the element.
pub open spec fn srcs() -> Seq<LinkFwInputSource> {
    seq![LinkFwInputSource::Analog, LinkFwInputSource::Digital]
}

/// The place of a source among the items of the element.
pub open spec fn src_index(src: LinkFwInputSource) -> u32 {
    match src {
        LinkFwInputSource::Analog => 0,
        LinkFwInputSource::Digital => 1,
    }
}

/// The control of the source of capture.
#[derive(Debug, Default)]
pub struct SpecificCtl;

impl SpecificCtl {
    /// The element to add: one value that chooses among the labels of the
    /// sources.
    pub fn load(&self) -> (elem: ElemDef)
        ensures
            elem.name@ == CAPTURE_SOURCE_NAME@,
            elem.iface == ElemIfaceType::Mixer,
            elem.elem_count == 1,
            elem.value_count == 1,
            elem.unlock,
            elem.kind matches ElemKind::Enum(labels) && labels@.len() == 2 && labels@[0]@
                == ANALOG_LABEL@ && labels@[1]@ == DIGITAL_LABEL@,
    {
        let mut labels: Vec<String> = Vec::new();
        labels.push(input_source_to_str(&LinkFwInputSource::Analog).to_owned());
        labels.push(input_source_to_str(&LinkFwInputSource::Digital).to_owned());
        ElemDef {
            iface: ElemIfaceType::Mixer,
            name: CAPTURE_SOURCE_NAME,
            elem_count: 1,
            value_count: 1,
            kind: ElemKind::Enum(labels),
            unlock: true,
        }
    }

    /// The value of the element with the given name when the device reports
    /// `src` as its source of capture: the place of the source among the
    /// items, or nothing for an element of another control.
    pub fn read(&self, elem_name: &str, src: LinkFwInputSource) -> (value: Option<ElemValue>)
        ensures
            elem_name@ == CAPTURE_SOURCE_NAME@ ==> value.is_some() && value->0@
                == ElemValueView::Enum(seq![src_index(src)]),
            elem_name@ != CAPTURE_SOURCE_NAME@ ==> value.is_none(),
    {
        if is_named(elem_name, CAPTURE_SOURCE_NAME) {
            let idx: u32 = match src {
                LinkFwInputSource::Analog => 0,
                LinkFwInputSource::Digital => 1,
            };
            let mut vals: Vec<u32> = Vec::new();
            vals.push(idx);
            Some(ElemValue::Enum(vals))
        } else {
            None
        }
    }

    /// The source of capture that a new value of the element with the given
    /// name asks for, or nothing for an element of another control. The
    /// value holds the place of the source among the items.
    pub fn write(&self, elem_name: &str, elem_value: &ElemValue) -> (src: Result<
        Option<LinkFwInputSource>,
        Error,
    >)
        ensures
            elem_name@ != CAPTURE_SOURCE_NAME@ ==> src == Ok::<Option<LinkFwInputSource>, Error>(
                None,
            ),
            elem_name@ == CAPTURE_SOURCE_NAME@ ==> match elem_value@ {
                ElemValueView::Enum(vals) if vals.len() >= 1 => if vals[0] < srcs().len() {
                    src == Ok::<Option<LinkFwInputSource>, Error>(Some(srcs()[vals[0] as int]))
                } else {
                    src == Err::<Option<LinkFwInputSource>, Error>(
                        Error::InvalidArgument(Argument::InputSource, vals[0] as usize),
                    )
                },
                _ => src == Err::<Option<LinkFwInputSource>, Error>(
                    Error::InvalidArgument(Argument::ElemValue, 0),
                ),
            },
    {
        if !is_named(elem_name, CAPTURE_SOURCE_NAME) {
            return Ok(None);
        }
        match elem_value {
            ElemValue::Enum(vals) => {
                if vals.len() < 1 {
                    return Err(Error::InvalidArgument(Argument::ElemValue, 0));
                }
                let val = vals[0];
                if val == 0 {
                    Ok(Some(LinkFwInputSource::Analog))
                } else if val == 1 {
                    Ok(Some(LinkFwInputSource::Digital))
                } else {
                    Err(Error::InvalidArgument(Argument::InputSource, val as usize))
                }
            },
            _ => Err(Error::InvalidArgument(Argument::ElemValue, 0)),
        }
    }
}

/// The source that is written for the place of a source is that source.
pub proof fn input_source_round_trip(src: LinkFwInputSource)
    ensures
        src_index(src) < srcs().len(),
        srcs()[src_index(src) as int] == src,
{
}

} // verus!
