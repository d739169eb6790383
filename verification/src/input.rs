//! The input task's decision logic: what one inbound event makes the task
//! do — which executor call, which feedback publication, which next state.
//!
//! The host runs the loop itself: it races the inbound stream against the
//! cancellation signal, hands whichever arrives first to [`input_step`],
//! performs the returned executor call and feedback send, and continues in
//! the returned state.  Feedback delivery is best-effort: a full or closed
//! feedback channel drops the event and never blocks the input path.
use vstd::prelude::*;

use crate::mapping::Action;
use crate::mapping::MappingTable;
use crate::message::Message;
use crate::message::MidiMessage;

verus! {

/// The input task's state: running, draining after cancellation, or done.
#[derive(Debug, Clone, Copy, PartialEq, Eq, Structural)]
pub enum InputState {
    /// Consuming inbound events.
    Running,
    /// Cancellation observed; finishing up before stopping.
    Draining,
    /// Terminal: the task is over and nothing is sent any more.
    Stopped,
}

/// What the input task wakes up to: the race between the inbound stream and
/// the cancellation signal, first-ready-wins.
#[derive(Debug, Clone, Copy, PartialEq, Eq, Structural)]
pub enum InputEvent {
    /// The next inbound message arrived.
    Inbound(Message),
    /// The inbound stream closed: the transport ended.
    Closed,
    /// The cancellation signal fired.
    Cancelled,
}

/// Which executor entry point a dispatch invokes.
#[derive(Debug, Clone, Copy, PartialEq, Eq, Structural)]
pub enum DispatchKind {
    /// The press entry point.
    On,
    /// The release entry point.
    Off,
}

/// Everything one step of the input task decides.
pub struct InputStep<'a> {
    /// The executor call to make: present exactly when the event is a press
    /// or release of a mapped pad.  Executor failures are logged by the
    /// host and never halt the task.
    pub dispatch: Option<(DispatchKind, &'a Action)>,
    /// The event to republish on the feedback channel, best-effort.
    pub feedback: Option<MidiMessage>,
    /// The state to continue in.
    pub next: InputState,
}

/// The state transition of one step.
pub open spec fn spec_input_next(state: InputState, event: InputEvent) -> InputState {
    match state {
        InputState::Running => match event {
            InputEvent::Inbound(_) => InputState::Running,
            InputEvent::Closed => InputState::Stopped,
            InputEvent::Cancelled => InputState::Draining,
        },
        InputState::Draining => InputState::Stopped,
        InputState::Stopped => InputState::Stopped,
    }
}

/// The executor call a decoded event asks for: the bound action of a mapped
/// press or release, and nothing for anything else.
pub open spec fn spec_dispatch(table: MappingTable, msg: MidiMessage) -> Option<
    (DispatchKind, Action),
> {
    match msg {
        MidiMessage::NoteOn(_ch, note, _vel) => match table.spec_lookup(note) {
            Some(a) => Some((DispatchKind::On, a)),
            None => None,
        },
        MidiMessage::NoteOff(_ch, note) => match table.spec_lookup(note) {
            Some(a) => Some((DispatchKind::Off, a)),
            None => None,
        },
        _ => None,
    }
}

/// The event republished on the feedback channel: every press and release —
/// mapped or not — and nothing else.
pub open spec fn spec_feedback(msg: MidiMessage) -> Option<MidiMessage> {
    match msg {
        MidiMessage::NoteOn(_ch, _note, _vel) => Some(msg),
        MidiMessage::NoteOff(_ch, _note) => Some(msg),
        _ => None,
    }
}

/// One step of the input task: decide everything the task does with one
/// wake-up.  Events are handled strictly in arrival order, one at a time.
pub fn input_step<'a>(table: &'a MappingTable, state: InputState, event: &InputEvent) -> (r:
    InputStep<'a>)
    requires
        table.wf(),
    ensures
        r.next == spec_input_next(state, *event),
        match (state, *event) {
            (InputState::Running, InputEvent::Inbound(m)) => {
                &&& r.feedback == spec_feedback(m.1)
                &&& match spec_dispatch(*table, m.1) {
                    Some(p) => r.dispatch matches Some(q) && q.0 == p.0 && *q.1 == p.1,
                    None => r.dispatch is None,
                }
            },
            _ => r.dispatch is None && r.feedback is None,
        },
{
    match state {
        InputState::Running => match event {
            InputEvent::Inbound(m) => match m.1 {
                MidiMessage::NoteOn(_ch, note, _vel) => {
                    let dispatch = match table.lookup(note) {
                        Some(a) => Some((DispatchKind::On, a)),
                        None => None,
                    };
                    InputStep { dispatch, feedback: Some(m.1), next: InputState::Running }
                },
                MidiMessage::NoteOff(_ch, note) => {
                    let dispatch = match table.lookup(note) {
                        Some(a) => Some((DispatchKind::Off, a)),
                        None => None,
                    };
                    InputStep { dispatch, feedback: Some(m.1), next: InputState::Running }
                },
                MidiMessage::AfterTouch(_ch, note, _vel) => {
                    // The mapping is resolved but not dispatched: a reserved
                    // extension point.
                    let _action = table.lookup(note);
                    InputStep { dispatch: None, feedback: None, next: InputState::Running }
                },
                MidiMessage::Clock => InputStep {
                    dispatch: None,
                    feedback: None,
                    next: InputState::Running,
                },
                MidiMessage::Unknown => InputStep {
                    dispatch: None,
                    feedback: None,
                    next: InputState::Running,
                },
            },
            InputEvent::Closed => InputStep {
                dispatch: None,
                feedback: None,
                next: InputState::Stopped,
            },
            InputEvent::Cancelled => InputStep {
                dispatch: None,
                feedback: None,
                next: InputState::Draining,
            },
        },
        InputState::Draining => InputStep {
            dispatch: None,
            feedback: None,
            next: InputState::Stopped,
        },
        InputState::Stopped => InputStep {
            dispatch: None,
            feedback: None,
            next: InputState::Stopped,
        },
    }
}

/// Mapping isolation: an aftertouch event never asks for an executor call,
/// whether or not its pitch is mapped.
pub proof fn lemma_aftertouch_never_dispatches(table: MappingTable, msg: MidiMessage)
    requires
        msg is AfterTouch,
    ensures
        spec_dispatch(table, msg) is None,
{
}

/// Clock ticks and unrecognized frames are consumed without any side
/// effect: no executor call and no feedback publication.
pub proof fn lemma_clock_unknown_no_effects(table: MappingTable, msg: MidiMessage)
    requires
        msg is Clock || msg is Unknown,
    ensures
        spec_dispatch(table, msg) is None,
        spec_feedback(msg) is None,
{
}

/// `Stopped` is terminal: no event leads out of it, and a stopped task
/// neither dispatches nor publishes feedback.
pub proof fn lemma_stopped_is_terminal(event: InputEvent)
    ensures
        spec_input_next(InputState::Stopped, event) == InputState::Stopped,
{
}

} // verus!
