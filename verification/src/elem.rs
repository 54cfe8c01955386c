//! Control elements as the sound card shows them: what defines a group of
//! elements, and the value of one element.

use vstd::prelude::*;

verus! {

/// The interface that a control element belongs to.
#[derive(Clone, Copy, Debug, PartialEq, Eq, Structural)]
pub enum ElemIfaceType {
    Card,
    Mixer,
}

/// The value of a control element.
#[derive(Debug)]
pub enum ElemValue {
    Bool(Vec<bool>),
    Int(Vec<i32>),
    Enum(Vec<u32>),
}

/// What `ElemValue` holds.
pub enum ElemValueView {
    Bool(Seq<bool>),
    Int(Seq<i32>),
    Enum(Seq<u32>),
}

impl View for ElemValue {
    type V = ElemValueView;

    open spec fn view(&self) -> ElemValueView {
        match self {
            ElemValue::Bool(vals) => ElemValueView::Bool(vals@),
            ElemValue::Int(vals) => ElemValueView::Int(vals@),
            ElemValue::Enum(vals) => ElemValueView::Enum(vals@),
        }
    }
}

/// The range and the scale of elements with integer values.
#[derive(Debug)]
pub struct IntRange {
    pub min: i32,
    pub max: i32,
    pub step: i32,
    /// The scale in decibel, as the data of type, length and value that the
    /// sound card hands to applications.
    pub tlv: Option<Vec<u32>>,
}

/// The kind of the values of a group of elements.
#[derive(Debug)]
pub enum ElemKind {
    Bool,
    Int(IntRange),
    /// The labels of the items to choose from.
    Enum(Vec<String>),
}

/// A group of control elements to add to the sound card.
#[derive(Debug)]
pub struct ElemDef {
    pub iface: ElemIfaceType,
    pub name: &'static str,
    pub elem_count: usize,
    pub value_count: usize,
    pub kind: ElemKind,
    /// Whether applications may change the value.
    pub unlock: bool,
}

/// Kind of scale: the values of the element rise linearly.
pub const TLVT_DB_LINEAR: u32 = 2;

/// Kind of scale: the values of the element are decibels between two ends.
pub const TLVT_DB_MINMAX: u32 = 4;

/// Kind of scale: as before, and the lowest value mutes.
pub const TLVT_DB_MINMAX_MUTE: u32 = 5;

/// The data of a scale between `min` and `max` (in units of a hundredth of a
/// decibel): the kind of scale, the length of the value in bytes, and the
/// two ends as 32 bit words.
pub open spec fn db_interval_data(min: i32, max: i32, linear: bool, mute_avail: bool) -> Seq<u32> {
    seq![
        if linear {
            TLVT_DB_LINEAR
        } else if mute_avail {
            TLVT_DB_MINMAX_MUTE
        } else {
            TLVT_DB_MINMAX
        },
        8u32,
        min as u32,
        max as u32,
    ]
}

/// `Vec::<u32>::from` for alsa_ctl_tlv_codec's `DbInterval`: four words, the
/// type (linear before mute before plain ends), the length 8, and the two
/// ends reinterpreted as unsigned.
#[verifier::external_body]
fn db_interval_words(min: i32, max: i32, linear: bool, mute_avail: bool) -> (words: Vec<u32>)
    ensures
        words@ == db_interval_data(min, max, linear, mute_avail),
{
    let interval = alsa_ctl_tlv_codec::DbInterval { min, max, linear, mute_avail };
    Vec::<u32>::from(&interval)
}

/// The data of a scale in decibel.
pub fn db_interval_tlv(min: i32, max: i32, linear: bool, mute_avail: bool) -> (words: Vec<u32>)
    ensures
        words@ == db_interval_data(min, max, linear, mute_avail),
        words@.len() == 4,
{
    db_interval_words(min, max, linear, mute_avail)
}

/// `str::eq` of std: two strings are equal when they hold the same
/// characters.
#[verifier::external_body]
fn str_equal(a: &str, b: &str) -> (equal: bool)
    ensures
        equal == (a@ == b@),
{
    a == b
}

/// Whether an element has the given name.
pub fn is_named(elem_name: &str, name: &str) -> (named: bool)
    ensures
        named == (elem_name@ == name@),
{
    str_equal(elem_name, name)
}

} // verus!
