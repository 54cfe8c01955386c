//! What the service of a unit does on each event that reaches it.

use vstd::prelude::*;
use crate::elem::{is_named, ElemDef, ElemIfaceType, ElemKind};

verus! {

/// Name of the element that switches metering on and off.
pub const TIMER_NAME: &'static str = "metering";

/// Milliseconds between two measurements.
pub const TIMER_INTERVAL_MS: u64 = 50;

/// Milliseconds between the notice of a stream lock and its handling,
/// after which the packets stream in fact.
pub const STREAM_LOCK_DELAY_MS: u64 = 500;

/// Number of events that wait for the service at most.
pub const EVENT_QUEUE_LENGTH: usize = 32;

/// What reaches the service.
#[derive(Debug)]
pub enum Event {
    /// The service is asked to end.
    Shutdown,
    /// The unit left the bus.
    Disconnected,
    /// The bus was reset; carries its generation.
    BusReset(u32),
    /// An element of the sound card changed; carries its name.
    Elem(String),
    /// The time between two measurements is over.
    Timer,
    /// Streaming began or ended.
    StreamLock(bool),
}

/// What the service does next.
#[derive(Clone, Copy, Debug, PartialEq, Eq, Structural)]
pub enum Action {
    /// End the service.
    Stop,
    /// Tell that the bus has the given generation.
    ReportBusReset(u32),
    /// Hand the change of the element to the model of the unit.
    DispatchElem,
    /// Read the switch of metering and start or stop the timer by it.
    ReadTimerSwitch,
    /// Measure and update the measured elements.
    Measure,
    /// Hand the begin or end of streaming to the model of the unit.
    DispatchStreamLock(bool),
}

/// What is done with the timer.
#[derive(Clone, Copy, Debug, PartialEq, Eq, Structural)]
pub enum TimerAction {
    Start,
    Stop,
}

/// The action for an event.
pub open spec fn action_of(event: Event) -> Action {
    match event {
        Event::Shutdown => Action::Stop,
        Event::Disconnected => Action::Stop,
        Event::BusReset(generation) => Action::ReportBusReset(generation),
        Event::Elem(name) => if name@ == TIMER_NAME@ {
            Action::ReadTimerSwitch
        } else {
            Action::DispatchElem
        },
        Event::Timer => Action::Measure,
        Event::StreamLock(locked) => Action::DispatchStreamLock(locked),
    }
}

/// Decides what to do on an event. The service ends when it is asked to
/// and when the unit is gone; every other event leaves it running.
pub fn run(event: &Event) -> (action: Action)
    ensures
        action == action_of(*event),
        action == Action::Stop <==> *event is Shutdown || *event is Disconnected,
{
    match event {
        Event::Shutdown => Action::Stop,
        Event::Disconnected => Action::Stop,
        Event::BusReset(generation) => Action::ReportBusReset(*generation),
        Event::Elem(name) => if is_named(name.as_str(), TIMER_NAME) {
            Action::ReadTimerSwitch
        } else {
            Action::DispatchElem
        },
        Event::Timer => Action::Measure,
        Event::StreamLock(locked) => Action::DispatchStreamLock(*locked),
    }
}

/// What the switch of metering asks of the timer.
pub fn timer_switch(val: bool) -> (action: TimerAction)
    ensures
        action == (if val {
            TimerAction::Start
        } else {
            TimerAction::Stop
        }),
{
    if val {
        TimerAction::Start
    } else {
        TimerAction::Stop
    }
}

/// The element to add when the service begins to listen: the switch of
/// metering, where the model measures anything.
pub fn listen(measured_elem_count: usize) -> (elem: Option<ElemDef>)
    ensures
        elem.is_some() <==> measured_elem_count > 0,
        elem matches Some(def) ==> def.name@ == TIMER_NAME@ && def.iface == ElemIfaceType::Mixer
            && def.elem_count == 1 && def.value_count == 1 && def.kind is Bool && def.unlock,
{
    if measured_elem_count > 0 {
        Some(
            ElemDef {
                iface: ElemIfaceType::Mixer,
                name: TIMER_NAME,
                elem_count: 1,
                value_count: 1,
                kind: ElemKind::Bool,
                unlock: true,
            },
        )
    } else {
        None
    }
}

} // verus!
