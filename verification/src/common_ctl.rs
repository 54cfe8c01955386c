//! The sampling rate of units that announce their stream formats: which
//! rates there are, how the formats are found out, and what is sent in
//! which order to change the rate.

use vstd::prelude::*;
use crate::elem::{is_named, ElemValue, ElemValueView};
use crate::error::{Argument, Error};
use crate::plug_signal::PlugDirection;
use crate::table::{position, position_in_bounds, position_u32};

verus! {

/// Name of the element for the sampling rate.
pub const CLK_RATE_NAME: &'static str = "sampling-rate";

/// Number of stream formats that are asked for at most.
pub const FORMAT_LIST_MAX: u8 = 10;

/// The sampling rates that a unit is asked about where it does not list
/// its stream formats.
pub open spec fn candidate_rates() -> Seq<u32> {
    seq![32000u32, 44100, 48000, 88200, 96000, 176400, 192000]
}

/// The sampling rate at a place of the candidates.
pub fn candidate_rate(k: usize) -> (freq: u32)
    requires
        k < candidate_rates().len(),
    ensures
        freq == candidate_rates()[k as int],
{
    if k == 0 {
        32000
    } else if k == 1 {
        44100
    } else if k == 2 {
        48000
    } else if k == 3 {
        88200
    } else if k == 4 {
        96000
    } else if k == 5 {
        176400
    } else {
        192000
    }
}

/// What is read of a compound stream format: its sampling rate and its
/// layout, the number and the kind of the streams of each entry.
#[derive(Debug)]
pub struct FormatEntry {
    pub freq: u32,
    pub entries: Vec<(u8, u8)>,
}

/// What `FormatEntry` holds.
pub struct FormatEntryView {
    pub freq: u32,
    pub entries: Seq<(u8, u8)>,
}

impl View for FormatEntry {
    type V = FormatEntryView;

    open spec fn view(&self) -> FormatEntryView {
        FormatEntryView { freq: self.freq, entries: self.entries@ }
    }
}

/// What format entries hold.
pub open spec fn entry_views(entries: Seq<FormatEntry>) -> Seq<FormatEntryView> {
    Seq::new(entries.len(), |i: int| entries[i]@)
}

/// Whether a sampling rate occurs among format entries.
pub open spec fn has_rate(entries: Seq<FormatEntry>, freq: u32) -> bool {
    exists|i: int| 0 <= i < entries.len() && (#[trigger] entries[i]).freq == freq
}

/// Whether values rise from each place to the next.
pub open spec fn rising(rates: Seq<u32>) -> bool {
    forall|i: int, j: int| 0 <= i < j < rates.len() ==> rates[i] < rates[j]
}

/// Whether two layouts are the same.
fn same_layout(a: &[(u8, u8)], b: &[(u8, u8)]) -> (same: bool)
    ensures
        same == (a@ == b@),
{
    if a.len() != b.len() {
        return false;
    }
    let mut i: usize = 0;
    while i < a.len()
        invariant
            i <= a.len(),
            a@.len() == b@.len(),
            forall|k: int| 0 <= k < i ==> a@[k] == b@[k],
        decreases a.len() - i,
    {
        if a[i].0 != b[i].0 || a[i].1 != b[i].1 {
            return false;
        }
        i = i + 1;
    }
    assert(a@ =~= b@);
    true
}

/// Puts a rate into rising rates, unless it is there.
fn insert_rate(rates: &mut Vec<u32>, freq: u32)
    requires
        rising(old(rates)@),
    ensures
        rising(final(rates)@),
        final(rates)@.contains(freq),
        forall|f: u32| #[trigger] old(rates)@.contains(f) ==> final(rates)@.contains(f),
        forall|f: u32|
            #[trigger] final(rates)@.contains(f) ==> old(rates)@.contains(f) || f == freq,
{
    let mut at: usize = 0;
    while at < rates.len() && rates[at] < freq
        invariant
            at <= rates@.len(),
            rates@ == old(rates)@,
            forall|k: int| 0 <= k < at ==> rates@[k] < freq,
        decreases rates@.len() - at,
    {
        at = at + 1;
    }
    if at < rates.len() && rates[at] == freq {
        assert(rates@[at as int] == freq);
        return ;
    }
    let ghost before = rates@;
    rates.insert(at, freq);
    assert(rates@ == before.insert(at as int, freq));
    assert(rates@[at as int] == freq);
    assert forall|f: u32| #[trigger] rates@.contains(f) implies before.contains(f) || f
        == freq by {
        let k = choose|k: int| 0 <= k < rates@.len() && rates@[k] == f;
        if k < at {
            assert(before[k] == f);
        } else if k > at {
            assert(before[k - 1] == f);
        }
    }
    assert forall|f: u32| #[trigger] before.contains(f) implies rates@.contains(f) by {
        let k = choose|k: int| 0 <= k < before.len() && before[k] == f;
        if k < at {
            assert(rates@[k] == f);
        } else {
            assert(rates@[k + 1] == f);
        }
    }
    assert forall|i: int, j: int| 0 <= i < j < rates@.len() implies rates@[i] < rates@[j] by {
        if j < at {
            assert(rates@[i] == before[i] && rates@[j] == before[j]);
        } else if j == at {
            assert(rates@[i] == before[i]);
        } else if i < at {
            assert(rates@[i] == before[i] && rates@[j] == before[j - 1]);
        } else if i == at {
            assert(rates@[j] == before[j - 1]);
            if j - 1 > at {
                assert(before[at as int] < before[j - 1]);
            }
        } else {
            assert(rates@[i] == before[i - 1] && rates@[j] == before[j - 1]);
        }
    }
}

/// Puts the rates of format entries into rising rates.
fn insert_rates(rates: &mut Vec<u32>, entries: &[FormatEntry])
    requires
        rising(old(rates)@),
    ensures
        rising(final(rates)@),
        forall|k: int|
            0 <= k < entries@.len() ==> final(rates)@.contains((#[trigger] entries@[k]).freq),
        forall|f: u32| #[trigger] old(rates)@.contains(f) ==> final(rates)@.contains(f),
        forall|f: u32|
            #[trigger] final(rates)@.contains(f) ==> old(rates)@.contains(f) || has_rate(
                entries@,
                f,
            ),
{
    let mut i: usize = 0;
    while i < entries.len()
        invariant
            i <= entries.len(),
            rising(rates@),
            forall|k: int| 0 <= k < i ==> rates@.contains((#[trigger] entries@[k]).freq),
            forall|f: u32| #[trigger] old(rates)@.contains(f) ==> rates@.contains(f),
            forall|f: u32|
                #[trigger] rates@.contains(f) ==> old(rates)@.contains(f) || has_rate(
                    entries@,
                    f,
                ),
        decreases entries.len() - i,
    {
        let ghost before = rates@;
        let freq = entries[i].freq;
        insert_rate(rates, freq);
        assert forall|f: u32| #[trigger] rates@.contains(f) implies old(rates)@.contains(f)
            || has_rate(entries@, f) by {
            if !before.contains(f) {
                assert(entries@[i as int].freq == f);
            }
        }
        assert forall|k: int| 0 <= k < i + 1 implies rates@.contains(
            (#[trigger] entries@[k]).freq,
        ) by {
            if k < i {
                assert(before.contains(entries@[k].freq));
            }
        }
        i = i + 1;
    }
}

/// The direction and the way of one step of a change of the rate.
#[derive(Clone, Copy, Debug, PartialEq, Eq, Structural)]
pub enum WriteStep {
    /// Set the signal format of plug 0 of the direction to the rate.
    Fallback(PlugDirection),
    /// Ask for the stream format of plug 0 of the direction, then set the
    /// announced format that has the rate and the layout of the answer.
    Enhanced(PlugDirection),
}

/// The sampling rate of a unit and the stream formats that it announced.
#[derive(Debug)]
pub struct CommonCtl {
    pub output_fmt_entries: Vec<FormatEntry>,
    pub input_fmt_entries: Vec<FormatEntry>,
    pub supported_rates: Vec<u32>,
    /// Whether the formats were made up from the current one, for a unit
    /// that does not list its formats.
    pub assumed: bool,
}

impl CommonCtl {
    /// A unit of which nothing is known yet.
    pub fn new() -> (ctl: CommonCtl)
        ensures
            ctl.output_fmt_entries@.len() == 0,
            ctl.input_fmt_entries@.len() == 0,
            ctl.supported_rates@.len() == 0,
            !ctl.assumed,
    {
        CommonCtl {
            output_fmt_entries: Vec::new(),
            input_fmt_entries: Vec::new(),
            supported_rates: Vec::new(),
            assumed: false,
        }
    }

    /// Takes over the stream formats that were found for both directions
    /// and works out the sampling rates: every rate of a format once, in
    /// rising order. The items of the element for the rate are these rates.
    pub fn load(
        &mut self,
        output_fmt_entries: Vec<FormatEntry>,
        input_fmt_entries: Vec<FormatEntry>,
        assumed: bool,
    )
        ensures
            final(self).output_fmt_entries@ == output_fmt_entries@,
            final(self).input_fmt_entries@ == input_fmt_entries@,
            final(self).assumed == assumed,
            rising(final(self).supported_rates@),
            forall|k: int|
                0 <= k < output_fmt_entries@.len() ==> final(self).supported_rates@.contains(
                    (#[trigger] output_fmt_entries@[k]).freq,
                ),
            forall|k: int|
                0 <= k < input_fmt_entries@.len() ==> final(self).supported_rates@.contains(
                    (#[trigger] input_fmt_entries@[k]).freq,
                ),
            forall|f: u32|
                #[trigger] final(self).supported_rates@.contains(f) ==> has_rate(
                    output_fmt_entries@,
                    f,
                ) || has_rate(input_fmt_entries@, f),
    {
        let mut rates: Vec<u32> = Vec::new();
        insert_rates(&mut rates, output_fmt_entries.as_slice());
        let ghost first = rates@;
        insert_rates(&mut rates, input_fmt_entries.as_slice());
        assert forall|k: int| 0 <= k < output_fmt_entries@.len() implies rates@.contains(
            (#[trigger] output_fmt_entries@[k]).freq,
        ) by {
            assert(first.contains(output_fmt_entries@[k].freq));
        }
        assert forall|f: u32| #[trigger] rates@.contains(f) implies has_rate(
            output_fmt_entries@,
            f,
        ) || has_rate(input_fmt_entries@, f) by {
            if first.contains(f) {
                assert(!Seq::<u32>::empty().contains(f));
            }
        }
        self.output_fmt_entries = output_fmt_entries;
        self.input_fmt_entries = input_fmt_entries;
        self.assumed = assumed;
        self.supported_rates = rates;
    }

    /// The index of a sampling rate among the rates, or the failure for a
    /// rate that was not announced.
    pub fn read_freq(&self, freq: u32) -> (idx: Result<usize, Error>)
        ensures
            match position(self.supported_rates@, freq) {
                Some(i) => idx == Ok::<usize, Error>(i as usize) && i < self.supported_rates@.len(),
                None => idx == Err::<usize, Error>(Error::UnsupportedRate(freq)),
            },
    {
        proof {
            position_in_bounds(self.supported_rates@, freq);
        }
        match position_u32(self.supported_rates.as_slice(), freq) {
            Some(idx) => Ok(idx),
            None => Err(Error::UnsupportedRate(freq)),
        }
    }

    /// The steps of the change to the rate at an index: the output plug
    /// before the input plug, each where formats are known for it; by the
    /// signal format where the formats were made up, else by the stream
    /// format.
    pub open spec fn write_steps(&self) -> Seq<WriteStep> {
        let output = if self.output_fmt_entries@.len() > 0 {
            seq![
                if self.assumed {
                    WriteStep::Fallback(PlugDirection::Output)
                } else {
                    WriteStep::Enhanced(PlugDirection::Output)
                },
            ]
        } else {
            Seq::empty()
        };
        let input = if self.input_fmt_entries@.len() > 0 {
            seq![
                if self.assumed {
                    WriteStep::Fallback(PlugDirection::Input)
                } else {
                    WriteStep::Enhanced(PlugDirection::Input)
                },
            ]
        } else {
            Seq::empty()
        };
        output + input
    }

    /// The rate at an index and the steps that change the unit to it, or
    /// the failure for an index without rate. A step that fails ends the
    /// change.
    pub fn write_freq(&self, idx: usize) -> (plan: Result<(u32, Vec<WriteStep>), Error>)
        ensures
            idx >= self.supported_rates@.len() ==> plan is Err && plan->Err_0
                == Error::RateIndexOutOfRange(idx),
            idx < self.supported_rates@.len() ==> plan is Ok && plan->Ok_0.0
                == self.supported_rates@[idx as int] && plan->Ok_0.1@ == self.write_steps(),
    {
        if idx >= self.supported_rates.len() {
            return Err(Error::RateIndexOutOfRange(idx));
        }
        let freq = self.supported_rates[idx];
        let mut steps: Vec<WriteStep> = Vec::new();
        if self.output_fmt_entries.len() > 0 {
            if self.assumed {
                steps.push(WriteStep::Fallback(PlugDirection::Output));
            } else {
                steps.push(WriteStep::Enhanced(PlugDirection::Output));
            }
        }
        if self.input_fmt_entries.len() > 0 {
            if self.assumed {
                steps.push(WriteStep::Fallback(PlugDirection::Input));
            } else {
                steps.push(WriteStep::Enhanced(PlugDirection::Input));
            }
        }
        assert(steps@ =~= self.write_steps());
        Ok((freq, steps))
    }

    /// The value of the element with the given name when the unit runs at
    /// `freq`: the index of the rate, or nothing for an element of another
    /// control.
    pub fn read(&self, elem_name: &str, freq: u32) -> (value: Result<Option<ElemValue>, Error>)
        ensures
            elem_name@ != CLK_RATE_NAME@ ==> value matches Ok(None),
            elem_name@ == CLK_RATE_NAME@ ==> match position(self.supported_rates@, freq) {
                Some(i) => value matches Ok(Some(v)) && v@ == ElemValueView::Enum(
                    seq![(i as usize) as u32],
                ),
                None => value matches Err(e) && e == Error::UnsupportedRate(freq),
            },
    {
        if !is_named(elem_name, CLK_RATE_NAME) {
            return Ok(None);
        }
        let idx = self.read_freq(freq)?;
        let mut vals: Vec<u32> = Vec::new();
        vals.push(#[verifier::truncate] (idx as u32));
        assert(vals@ =~= seq![idx as u32]);
        Ok(Some(ElemValue::Enum(vals)))
    }

    /// What a new value of the element with the given name asks for: the
    /// rate at the index that the value holds and the steps that change
    /// the unit to it, or nothing for an element of another control.
    pub fn write(&self, elem_name: &str, elem_value: &ElemValue) -> (plan: Result<
        Option<(u32, Vec<WriteStep>)>,
        Error,
    >)
        ensures
            elem_name@ != CLK_RATE_NAME@ ==> plan matches Ok(None),
            elem_name@ == CLK_RATE_NAME@ ==> match elem_value@ {
                ElemValueView::Enum(vals) if vals.len() >= 1 => if vals[0]
                    < self.supported_rates@.len() {
                    plan matches Ok(Some(p)) && p.0 == self.supported_rates@[vals[0] as int] && p.1@
                        == self.write_steps()
                } else {
                    plan matches Err(e) && e == Error::RateIndexOutOfRange(vals[0] as usize)
                },
                _ => plan matches Err(e) && e == Error::InvalidArgument(Argument::ElemValue, 0),
            },
    {
        if !is_named(elem_name, CLK_RATE_NAME) {
            return Ok(None);
        }
        match elem_value {
            ElemValue::Enum(vals) => {
                if vals.len() < 1 {
                    return Err(Error::InvalidArgument(Argument::ElemValue, 0));
                }
                let plan = self.write_freq(vals[0] as usize)?;
                Ok(Some(plan))
            },
            _ => Err(Error::InvalidArgument(Argument::ElemValue, 0)),
        }
    }

    /// The formats that were announced for a direction.
    pub open spec fn entries_of(&self, direction: PlugDirection) -> Seq<FormatEntry> {
        match direction {
            PlugDirection::Input => self.input_fmt_entries@,
            PlugDirection::Output => self.output_fmt_entries@,
        }
    }

    /// Whether the format at `pos` has the rate and the layout.
    pub open spec fn is_format(entries: Seq<FormatEntry>, freq: u32, layout: Seq<(u8, u8)>, pos: int) -> bool {
        &&& 0 <= pos < entries.len()
        &&& entries[pos].freq == freq
        &&& entries[pos].entries@ == layout
        &&& forall|k: int|
            0 <= k < pos ==> !((#[trigger] entries[k]).freq == freq && entries[k].entries@ == layout)
    }

    /// The place of the first format of a direction that has the wanted
    /// rate and the layout of the current format; `layout` is none where
    /// the current format is no compound stream.
    pub fn write_freq_for_enhanced_mode(
        &self,
        freq: u32,
        direction: PlugDirection,
        layout: Option<&[(u8, u8)]>,
    ) -> (pos: Result<usize, Error>)
        ensures
            layout.is_none() ==> pos == Err::<usize, Error>(Error::StreamFormatUnavailable),
            layout.is_some() ==> match pos {
                Ok(p) => CommonCtl::is_format(self.entries_of(direction), freq, layout->0@, p as int),
                Err(e) => e == Error::StreamFormatNotFound && forall|k: int|
                    0 <= k < self.entries_of(direction).len() ==> !((
                    #[trigger] self.entries_of(direction)[k]).freq == freq && self.entries_of(
                        direction,
                    )[k].entries@ == layout->0@),
            },
    {
        let wanted = match layout {
            None => {
                return Err(Error::StreamFormatUnavailable);
            },
            Some(wanted) => wanted,
        };
        let entries = match direction {
            PlugDirection::Input => &self.input_fmt_entries,
            PlugDirection::Output => &self.output_fmt_entries,
        };
        let mut i: usize = 0;
        while i < entries.len()
            invariant
                i <= entries.len(),
                layout == Some(wanted),
                entries@ == self.entries_of(direction),
                forall|k: int|
                    0 <= k < i ==> !((#[trigger] entries@[k]).freq == freq && entries@[k].entries@
                        == wanted@),
            decreases entries.len() - i,
        {
            if entries[i].freq == freq && same_layout(entries[i].entries.as_slice(), wanted) {
                return Ok(i);
            }
            i = i + 1;
        }
        Err(Error::StreamFormatNotFound)
    }
}

/// What is asked of the unit next while its stream formats are found out.
#[derive(Clone, Copy, Debug, PartialEq, Eq, Structural)]
pub enum DetectAction {
    /// Ask for the format at the given place of the list.
    List(u8),
    /// Ask for the current format.
    Single,
    /// Ask whether the signal format with the given rate is supported.
    Inquire(u32),
    /// Nothing more: the formats are found.
    Done,
    /// Nothing more: the unit has no compound stream format.
    Unavailable,
    /// Nothing more: the transaction for the current format failed.
    Failed,
}

/// How far the detection has come.
#[derive(Clone, Copy, Debug, PartialEq, Eq, Structural)]
pub enum DetectPhase {
    /// The format at the given place of the list is awaited.
    Listing(u8),
    /// The current format is awaited.
    Current,
    /// The answer about the candidate rate at the given place is awaited.
    Inquiring(usize),
    /// The detection is over.
    Finished,
}

/// What came back for the awaited action.
#[derive(Debug)]
pub enum DetectEvent {
    /// The transaction succeeded and reported a compound stream format, or,
    /// for an inquiry, succeeded.
    Compound(FormatEntry),
    /// The transaction succeeded and reported another format.
    Other,
    /// The transaction failed.
    Failed,
}

/// The detection of the stream formats of one direction.
#[derive(Debug)]
pub struct Detection {
    pub phase: DetectPhase,
    /// The formats found so far.
    pub entries: Vec<FormatEntry>,
    /// The layout of the current format, from which formats are made up.
    pub layout: Vec<(u8, u8)>,
    /// Whether the formats were made up.
    pub assumed: bool,
}

/// The phase and the action after an event, and the format that the event
/// adds to those found.
pub open spec fn detect_next(
    phase: DetectPhase,
    layout: Seq<(u8, u8)>,
    event: Option<FormatEntryView>,
    failed: bool,
) -> (DetectPhase, DetectAction, Option<FormatEntryView>) {
    match phase {
        DetectPhase::Listing(index) => if index == 0 {
            if failed {
                (DetectPhase::Current, DetectAction::Single, None)
            } else if event is None {
                (DetectPhase::Finished, DetectAction::Unavailable, None)
            } else {
                (DetectPhase::Listing(1), DetectAction::List(1), event)
            }
        } else if failed || event is None {
            (DetectPhase::Finished, DetectAction::Done, None)
        } else if index + 1 < FORMAT_LIST_MAX {
            (
                DetectPhase::Listing((index + 1) as u8),
                DetectAction::List((index + 1) as u8),
                event,
            )
        } else {
            (DetectPhase::Finished, DetectAction::Done, event)
        },
        DetectPhase::Current => if failed {
            (DetectPhase::Finished, DetectAction::Failed, None)
        } else if event is None {
            (DetectPhase::Finished, DetectAction::Unavailable, None)
        } else {
            (DetectPhase::Inquiring(0), DetectAction::Inquire(candidate_rates()[0]), None)
        },
        DetectPhase::Inquiring(k) => {
            let found = if failed || k >= candidate_rates().len() {
                None
            } else {
                Some(FormatEntryView { freq: candidate_rates()[k as int], entries: layout })
            };
            if k + 1 < candidate_rates().len() {
                (
                    DetectPhase::Inquiring((k + 1) as usize),
                    DetectAction::Inquire(candidate_rates()[k + 1]),
                    found,
                )
            } else {
                (DetectPhase::Finished, DetectAction::Done, found)
            }
        },
        DetectPhase::Finished => (DetectPhase::Finished, DetectAction::Done, None),
    }
}

/// The compound stream format of an event, if it holds one.
pub open spec fn event_format(event: DetectEvent) -> Option<FormatEntryView> {
    match event {
        DetectEvent::Compound(entry) => Some(entry@),
        _ => None,
    }
}

impl Detection {
    /// The detection at its begin, and the first action: ask for the first
    /// format of the list.
    pub fn begin() -> (begin: (Detection, DetectAction))
        ensures
            begin.0.phase == DetectPhase::Listing(0),
            begin.0.entries@.len() == 0,
            begin.0.layout@.len() == 0,
            !begin.0.assumed,
            begin.1 == DetectAction::List(0),
    {
        (
            Detection {
                phase: DetectPhase::Listing(0),
                entries: Vec::new(),
                layout: Vec::new(),
                assumed: false,
            },
            DetectAction::List(0),
        )
    }

    /// Takes what came back for the awaited action and tells the next
    /// action. A unit that lists its formats is asked for up to ten of
    /// them, until a transaction fails or reports another format. A unit
    /// that does not is asked for its current format and then about each
    /// candidate rate; for every rate that it supports a format with the
    /// current layout is made up.
    pub fn step(&mut self, event: DetectEvent) -> (action: DetectAction)
        ensures
            ({
                let (phase, next, found) = detect_next(
                    old(self).phase,
                    final(self).layout@,
                    event_format(event),
                    event is Failed,
                );
                &&& final(self).phase == phase
                &&& action == next
                &&& entry_views(final(self).entries@) == match found {
                    Some(entry) => entry_views(old(self).entries@).push(entry),
                    None => entry_views(old(self).entries@),
                }
            }),
            old(self).phase is Current && event is Compound ==> final(self).layout@
                == event_format(event)->0.entries,
            !(old(self).phase is Current && event is Compound) ==> final(self).layout@ == old(
                self,
            ).layout@,
            final(self).assumed == (old(self).assumed || (old(self).phase is Inquiring
                && final(self).phase is Finished)),
    {
        let ghost before = entry_views(self.entries@);
        match self.phase {
            DetectPhase::Listing(index) => {
                match event {
                    DetectEvent::Compound(entry) => {
                        let ghost added = entry@;
                        self.entries.push(entry);
                        assert(entry_views(self.entries@) =~= before.push(added));
                        if index < FORMAT_LIST_MAX - 1 {
                            self.phase = DetectPhase::Listing(index + 1);
                            DetectAction::List(index + 1)
                        } else {
                            self.phase = DetectPhase::Finished;
                            DetectAction::Done
                        }
                    },
                    DetectEvent::Other => {
                        self.phase = DetectPhase::Finished;
                        if index == 0 {
                            DetectAction::Unavailable
                        } else {
                            DetectAction::Done
                        }
                    },
                    DetectEvent::Failed => {
                        if index == 0 {
                            self.phase = DetectPhase::Current;
                            DetectAction::Single
                        } else {
                            self.phase = DetectPhase::Finished;
                            DetectAction::Done
                        }
                    },
                }
            },
            DetectPhase::Current => {
                match event {
                    DetectEvent::Compound(entry) => {
                        self.layout = entry.entries;
                        self.phase = DetectPhase::Inquiring(0);
                        DetectAction::Inquire(candidate_rate(0))
                    },
                    DetectEvent::Other => {
                        self.phase = DetectPhase::Finished;
                        DetectAction::Unavailable
                    },
                    DetectEvent::Failed => {
                        self.phase = DetectPhase::Finished;
                        DetectAction::Failed
                    },
                }
            },
            DetectPhase::Inquiring(k) => {
                let failed = match event {
                    DetectEvent::Failed => true,
                    _ => false,
                };
                if !failed && k < 7 {
                    let entry = FormatEntry {
                        freq: candidate_rate(k),
                        entries: copy_layout(self.layout.as_slice()),
                    };
                    let ghost added = entry@;
                    self.entries.push(entry);
                    assert(entry_views(self.entries@) =~= before.push(added));
                }
                if k < 6 {
                    self.phase = DetectPhase::Inquiring(k + 1);
                    DetectAction::Inquire(candidate_rate(k + 1))
                } else {
                    self.phase = DetectPhase::Finished;
                    self.assumed = true;
                    DetectAction::Done
                }
            },
            DetectPhase::Finished => DetectAction::Done,
        }
    }
}

/// A unit is asked for the formats of its list one after the other and for
/// ten at most; it is asked about every candidate rate once and in order;
/// and the detection ends only from its last question.
pub proof fn detection_is_bounded(
    phase: DetectPhase,
    layout: Seq<(u8, u8)>,
    event: Option<FormatEntryView>,
    failed: bool,
)
    requires
        phase matches DetectPhase::Listing(index) ==> index < FORMAT_LIST_MAX,
        phase matches DetectPhase::Inquiring(k) ==> k < candidate_rates().len(),
    ensures
        ({
            let (next, action, found) = detect_next(phase, layout, event, failed);
            &&& action matches DetectAction::List(j) ==> phase matches DetectPhase::Listing(i)
                && j == i + 1 && j < FORMAT_LIST_MAX && next == DetectPhase::Listing(j)
            &&& action matches DetectAction::Inquire(freq) ==> match phase {
                DetectPhase::Current => freq == candidate_rates()[0] && next
                    == DetectPhase::Inquiring(0),
                DetectPhase::Inquiring(k) => k + 1 < candidate_rates().len() && freq
                    == candidate_rates()[k + 1] && next == DetectPhase::Inquiring((k + 1) as usize),
                _ => false,
            }
            &&& action is Single ==> phase == DetectPhase::Listing(0) && failed
            &&& (action is Done || action is Unavailable || action is Failed) <==> next is Finished
            &&& found is Some ==> phase is Listing && found == event || phase is Inquiring
                && !failed && found->0.entries == layout
        }),
{
}

/// A copy of a layout.
fn copy_layout(layout: &[(u8, u8)]) -> (copy: Vec<(u8, u8)>)
    ensures
        copy@ == layout@,
{
    let mut copy: Vec<(u8, u8)> = Vec::new();
    let mut i: usize = 0;
    while i < layout.len()
        invariant
            i <= layout.len(),
            copy@.len() == i,
            forall|k: int| 0 <= k < i ==> copy@[k] == layout@[k],
        decreases layout.len() - i,
    {
        copy.push(layout[i]);
        i = i + 1;
    }
    assert(copy@ =~= layout@);
    copy
}

} // verus!
