//! The source of the clock of MOTU units of the third generation: its
//! labels, and the order of the steps that change it on a unit that shows
//! the source on its display.

use vstd::prelude::*;
use crate::elem::{ElemDef, ElemIfaceType, ElemKind};

verus! {

/// Name of the element for the sampling rate.
pub const RATE_NAME: &'static str = "sampling-rate";

/// Name of the element for the source of the clock.
pub const SRC_NAME: &'static str = "clock-source";

/// The labels of sources.
pub open spec fn labels_of(srcs: Seq<V3ClkSrc>) -> Seq<Seq<char>> {
    Seq::new(srcs.len(), |i: int| label_of(srcs[i]))
}

/// What labels hold.
pub open spec fn label_texts(labels: Seq<String>) -> Seq<Seq<char>> {
    Seq::new(labels.len(), |i: int| labels[i]@)
}

/// The source of the clock.
#[derive(Clone, Copy, Debug, PartialEq, Eq, Structural)]
pub enum V3ClkSrc {
    Internal,
    SpdifCoax,
    WordClk,
    SignalOptA,
    SignalOptB,
}

pub const INTERNAL_LABEL: &'static str = "Internal";

pub const SPDIF_COAX_LABEL: &'static str = "S/PDIF-on-coax";

pub const WORD_CLK_LABEL: &'static str = "Word-clk-on-BNC";

pub const SIGNAL_OPT_A_LABEL: &'static str = "Signal-on-opt-A";

pub const SIGNAL_OPT_B_LABEL: &'static str = "Signal-on-opt-B";

/// The label of a source.
pub open spec fn label_of(src: V3ClkSrc) -> Seq<char> {
    match src {
        V3ClkSrc::Internal => INTERNAL_LABEL@,
        V3ClkSrc::SpdifCoax => SPDIF_COAX_LABEL@,
        V3ClkSrc::WordClk => WORD_CLK_LABEL@,
        V3ClkSrc::SignalOptA => SIGNAL_OPT_A_LABEL@,
        V3ClkSrc::SignalOptB => SIGNAL_OPT_B_LABEL@,
    }
}

/// The label of a source.
pub fn clk_src_to_label(src: &V3ClkSrc) -> (label: String)
    ensures
        label@ == label_of(*src),
{
    let label = match src {
        V3ClkSrc::Internal => INTERNAL_LABEL,
        V3ClkSrc::SpdifCoax => SPDIF_COAX_LABEL,
        V3ClkSrc::WordClk => WORD_CLK_LABEL,
        V3ClkSrc::SignalOptA => SIGNAL_OPT_A_LABEL,
        V3ClkSrc::SignalOptB => SIGNAL_OPT_B_LABEL,
    };
    label.to_owned()
}

/// What is asked of the unit next while the source changes.
#[derive(Clone, Copy, Debug, PartialEq, Eq, Structural)]
pub enum ClkSrcAction {
    /// Read the current source.
    GetSrc,
    /// Lock the unit against streaming.
    Lock,
    /// Set the source at the given index.
    SetSrc(usize),
    /// Show the source at the given index on the display.
    UpdateDisplay(usize),
    /// Release the lock. Whether this succeeds does not matter.
    Unlock,
    /// Nothing more: the change succeeded.
    Succeed,
    /// Nothing more: the change failed with the failure of the given
    /// action.
    Fail(ClkSrcFailure),
}

/// The action whose failure is the failure of the change.
#[derive(Clone, Copy, Debug, PartialEq, Eq, Structural)]
pub enum ClkSrcFailure {
    GetSrc,
    Lock,
    SetSrc,
    UpdateDisplay,
}

/// How far the change has come.
#[derive(Clone, Copy, Debug, PartialEq, Eq, Structural)]
pub enum ClkSrcState {
    /// The action `GetSrc` is awaited.
    Reading,
    /// The action `Lock` is awaited; the source before the change is kept.
    Locking(usize),
    /// The action `SetSrc` for the new source is awaited.
    Setting(usize),
    /// The action `UpdateDisplay` is awaited.
    Displaying(usize),
    /// The action `SetSrc` for the source before the change is awaited.
    Restoring,
    /// The action `Unlock` is awaited, with the outcome to report after it.
    Unlocking(Option<ClkSrcFailure>),
    /// The change is over.
    Finished,
}

impl ClkSrcState {
    /// Whether the unit is locked in this state.
    pub open spec fn locked(self) -> bool {
        self is Setting || self is Displaying || self is Restoring || self is Unlocking
    }
}

/// The change of the source to the one at an index, on a unit with or
/// without display.
#[derive(Clone, Copy, Debug)]
pub struct V3ClkCtl {
    pub has_lcd: bool,
}

/// What follows the outcome of the awaited action: `done` tells whether the
/// action succeeded, `current` the source that a successful `GetSrc` read.
pub open spec fn transition(
    has_lcd: bool,
    state: ClkSrcState,
    val: usize,
    done: bool,
    current: usize,
) -> (ClkSrcState, ClkSrcAction) {
    match state {
        ClkSrcState::Reading => if done {
            (ClkSrcState::Locking(current), ClkSrcAction::Lock)
        } else {
            (ClkSrcState::Finished, ClkSrcAction::Fail(ClkSrcFailure::GetSrc))
        },
        ClkSrcState::Locking(prev) => if done {
            (ClkSrcState::Setting(prev), ClkSrcAction::SetSrc(val))
        } else {
            (ClkSrcState::Finished, ClkSrcAction::Fail(ClkSrcFailure::Lock))
        },
        ClkSrcState::Setting(prev) => if !done {
            (ClkSrcState::Unlocking(Some(ClkSrcFailure::SetSrc)), ClkSrcAction::Unlock)
        } else if has_lcd {
            (ClkSrcState::Displaying(prev), ClkSrcAction::UpdateDisplay(val))
        } else {
            (ClkSrcState::Unlocking(None), ClkSrcAction::Unlock)
        },
        ClkSrcState::Displaying(prev) => if done {
            (ClkSrcState::Unlocking(None), ClkSrcAction::Unlock)
        } else {
            (ClkSrcState::Restoring, ClkSrcAction::SetSrc(prev))
        },
        ClkSrcState::Restoring => (
            ClkSrcState::Unlocking(Some(ClkSrcFailure::UpdateDisplay)),
            ClkSrcAction::Unlock,
        ),
        ClkSrcState::Unlocking(failure) => match failure {
            None => (ClkSrcState::Finished, ClkSrcAction::Succeed),
            Some(f) => (ClkSrcState::Finished, ClkSrcAction::Fail(f)),
        },
        ClkSrcState::Finished => (ClkSrcState::Finished, ClkSrcAction::Succeed),
    }
}

impl V3ClkCtl {
    /// The elements to add: the sampling rate, chosen among the given
    /// labels, and the source of the clock, chosen among the labels of the
    /// sources that the unit has.
    pub fn load(&self, rate_labels: Vec<String>, srcs: &[V3ClkSrc]) -> (elems: Vec<ElemDef>)
        ensures
            elems@.len() == 2,
            elems@[0].name@ == RATE_NAME@,
            elems@[1].name@ == SRC_NAME@,
            forall|i: int|
                0 <= i < 2 ==> (#[trigger] elems@[i]).iface == ElemIfaceType::Card
                    && elems@[i].elem_count == 1 && elems@[i].value_count == 1 && elems@[i].unlock,
            elems@[0].kind matches ElemKind::Enum(labels) && labels@ == rate_labels@,
            elems@[1].kind matches ElemKind::Enum(labels) && label_texts(labels@) == labels_of(
                srcs@,
            ),
    {
        let mut src_labels: Vec<String> = Vec::new();
        let mut i: usize = 0;
        while i < srcs.len()
            invariant
                i <= srcs.len(),
                src_labels@.len() == i,
                forall|k: int| 0 <= k < i ==> src_labels@[k]@ == label_of(srcs@[k]),
            decreases srcs.len() - i,
        {
            src_labels.push(clk_src_to_label(&srcs[i]));
            i = i + 1;
        }
        assert(label_texts(src_labels@) =~= labels_of(srcs@));
        let mut elems: Vec<ElemDef> = Vec::new();
        elems.push(
            ElemDef {
                iface: ElemIfaceType::Card,
                name: RATE_NAME,
                elem_count: 1,
                value_count: 1,
                kind: ElemKind::Enum(rate_labels),
                unlock: true,
            },
        );
        elems.push(
            ElemDef {
                iface: ElemIfaceType::Card,
                name: SRC_NAME,
                elem_count: 1,
                value_count: 1,
                kind: ElemKind::Enum(src_labels),
                unlock: true,
            },
        );
        elems
    }

    /// The state and the action with which a change begins.
    pub fn write_begin(&self) -> (begin: (ClkSrcState, ClkSrcAction))
        ensures
            begin == (ClkSrcState::Reading, ClkSrcAction::GetSrc),
    {
        (ClkSrcState::Reading, ClkSrcAction::GetSrc)
    }

    /// The next state and action of the change to the source at `val`,
    /// after the awaited action succeeded or failed.
    pub fn write(&self, state: ClkSrcState, val: usize, done: bool, current: usize) -> (next: (
        ClkSrcState,
        ClkSrcAction,
    ))
        ensures
            next == transition(self.has_lcd, state, val, done, current),
    {
        match state {
            ClkSrcState::Reading => if done {
                (ClkSrcState::Locking(current), ClkSrcAction::Lock)
            } else {
                (ClkSrcState::Finished, ClkSrcAction::Fail(ClkSrcFailure::GetSrc))
            },
            ClkSrcState::Locking(prev) => if done {
                (ClkSrcState::Setting(prev), ClkSrcAction::SetSrc(val))
            } else {
                (ClkSrcState::Finished, ClkSrcAction::Fail(ClkSrcFailure::Lock))
            },
            ClkSrcState::Setting(prev) => if !done {
                (ClkSrcState::Unlocking(Some(ClkSrcFailure::SetSrc)), ClkSrcAction::Unlock)
            } else if self.has_lcd {
                (ClkSrcState::Displaying(prev), ClkSrcAction::UpdateDisplay(val))
            } else {
                (ClkSrcState::Unlocking(None), ClkSrcAction::Unlock)
            },
            ClkSrcState::Displaying(prev) => if done {
                (ClkSrcState::Unlocking(None), ClkSrcAction::Unlock)
            } else {
                (ClkSrcState::Restoring, ClkSrcAction::SetSrc(prev))
            },
            ClkSrcState::Restoring => (
                ClkSrcState::Unlocking(Some(ClkSrcFailure::UpdateDisplay)),
                ClkSrcAction::Unlock,
            ),
            ClkSrcState::Unlocking(failure) => match failure {
                None => (ClkSrcState::Finished, ClkSrcAction::Succeed),
                Some(f) => (ClkSrcState::Finished, ClkSrcAction::Fail(f)),
            },
            ClkSrcState::Finished => (ClkSrcState::Finished, ClkSrcAction::Succeed),
        }
    }

    /// Whether the display is to be updated after the source was read: on
    /// a unit with display, whatever comes of it.
    pub fn read(&self) -> (update: bool)
        ensures
            update == self.has_lcd,
    {
        self.has_lcd
    }
}

/// A unit that was locked is unlocked before the change is over, whatever
/// succeeds and whatever fails: no step leads from a state in which the
/// lock is held to the end but the one that follows `Unlock`, and `Unlock`
/// is asked for exactly when the lock is held and no other action is left.
pub proof fn lock_is_released(
    has_lcd: bool,
    state: ClkSrcState,
    val: usize,
    done: bool,
    current: usize,
)
    ensures
        ({
            let (next, action) = transition(has_lcd, state, val, done, current);
            &&& state.locked() && !(state is Unlocking) ==> next.locked() && !(action is Succeed)
                && !(action is Fail)
            &&& action is Unlock <==> next is Unlocking
            &&& next is Unlocking ==> state.locked()
            &&& next is Finished && state.locked() ==> state is Unlocking
            &&& action is Lock ==> !state.locked()
        }),
{
}

/// The source before the change is set again exactly when the display
/// could not be updated, and the change then fails for the display.
pub proof fn failed_display_restores_source(has_lcd: bool, prev: usize, val: usize, current: usize)
    ensures
        transition(has_lcd, ClkSrcState::Displaying(prev), val, false, current) == (
            ClkSrcState::Restoring,
            ClkSrcAction::SetSrc(prev),
        ),
        forall|done: bool|
            transition(has_lcd, ClkSrcState::Restoring, val, done, current).0
                == ClkSrcState::Unlocking(Some(ClkSrcFailure::UpdateDisplay)),
        forall|state: ClkSrcState, done: bool|
            (#[trigger] transition(has_lcd, state, val, done, current)).0 is Restoring ==> state
                is Displaying && !done,
{
}

} // verus!
