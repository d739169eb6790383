//! The output task's decision logic: the frames that paint the mapping at
//! startup, track feedback while live, and darken every pad at shutdown.
//!
//! The host runs the loop itself: it sends the startup frames, races the
//! feedback channel against the cancellation signal, hands each wake-up to
//! [`output_step`], sends whatever frame the step returns, and sends the
//! shutdown sweep when the task reaches `Closing`.  A send failure is a
//! terminal error for the output side only; the input loop runs on.
use vstd::prelude::*;

use crate::DeviceNameRetrieve;
use crate::mapping::MappingTable;
use crate::message::MidiMessage;
use crate::note::MidiNote;
use crate::note::spec_decode;

verus! {

/// Color index for a pad whose note is held down.
pub const COLOR_PAD_ON: u8 = 120;

/// Color index for a mapped pad at rest.
pub const COLOR_PAD_OFF: u8 = 11;

/// Port names plus the switch that disables pad lighting entirely.
pub trait OutputDeviceNameRetrieve: DeviceNameRetrieve {
    /// Whether the lighting overlay is enabled; when `false` the output
    /// task does nothing and exits at once.
    fn get_light_status(&self) -> bool;
}

/// The output task's state.
#[derive(Debug, Clone, Copy, PartialEq, Eq, Structural)]
pub enum OutputState {
    /// Painting every mapped pad before going live.
    Painting,
    /// Tracking feedback events.
    Live,
    /// Cancellation observed; the all-off sweep is owed.
    Closing,
    /// Terminal: nothing is sent any more.
    Stopped,
}

/// What the output task wakes up to.
#[derive(Debug, Clone, Copy, PartialEq, Eq, Structural)]
pub enum OutputEvent {
    /// The startup paint finished.
    PaintingDone,
    /// The next feedback event arrived.
    Feedback(MidiMessage),
    /// The cancellation signal fired.
    Cancelled,
    /// The shutdown sweep finished.
    SweepDone,
}

/// What one step of the output task decides.
pub struct OutputStep {
    /// The frame to send, if this wake-up paints a pad.
    pub send: Option<Vec<u8>>,
    /// The state to continue in.
    pub next: OutputState,
}

/// The frame that sets a pad's color: the protocol has a single opcode for
/// it — a press on channel 0 with the color index in the velocity byte.
pub open spec fn spec_pad_frame(note: MidiNote, color: u8) -> Seq<u8> {
    MidiMessage::NoteOn(0, note, color).spec_to_bytes()
}

/// The frame a feedback event is painted as while live: on-color for a
/// press, off-color for a release, nothing for any other event.
pub open spec fn spec_draw_active(msg: MidiMessage) -> Option<Seq<u8>> {
    match msg {
        MidiMessage::NoteOn(_ch, note, _vel) => if note.in_range() {
            Some(spec_pad_frame(note, COLOR_PAD_ON))
        } else {
            None
        },
        MidiMessage::NoteOff(_ch, note) => if note.in_range() {
            Some(spec_pad_frame(note, COLOR_PAD_OFF))
        } else {
            None
        },
        _ => None,
    }
}

/// The startup paint over the first `upto` note numbers: an off-color frame
/// for every mapped pad, in ascending note order.
pub open spec fn spec_paint_frames(t: MappingTable, upto: int) -> Seq<Seq<u8>>
    decreases upto,
{
    if upto <= 0 {
        Seq::empty()
    } else {
        let rest = spec_paint_frames(t, upto - 1);
        if t@[upto - 1] is Some {
            rest.push(spec_pad_frame(spec_decode((upto - 1) as u8), COLOR_PAD_OFF))
        } else {
            rest
        }
    }
}

/// The shutdown sweep over the first `upto` note numbers: a release frame
/// for every pad, mapped or not.
pub open spec fn spec_all_off_frames(upto: int) -> Seq<Seq<u8>>
    decreases upto,
{
    if upto <= 0 {
        Seq::empty()
    } else {
        spec_all_off_frames(upto - 1).push(
            MidiMessage::NoteOff(0, spec_decode((upto - 1) as u8)).spec_to_bytes(),
        )
    }
}

/// The state the output task starts in: painting, or — with lighting
/// disabled — already stopped, sending nothing at all.
pub open spec fn spec_output_initial(lights: bool) -> OutputState {
    if lights {
        OutputState::Painting
    } else {
        OutputState::Stopped
    }
}

/// The state transition of one step.
pub open spec fn spec_output_next(state: OutputState, event: OutputEvent) -> OutputState {
    match state {
        OutputState::Painting => match event {
            OutputEvent::PaintingDone => OutputState::Live,
            OutputEvent::Cancelled => OutputState::Closing,
            _ => OutputState::Painting,
        },
        OutputState::Live => match event {
            OutputEvent::Cancelled => OutputState::Closing,
            _ => OutputState::Live,
        },
        OutputState::Closing => match event {
            OutputEvent::SweepDone => OutputState::Stopped,
            _ => OutputState::Closing,
        },
        OutputState::Stopped => OutputState::Stopped,
    }
}

/// The frame one step sends: only a live task paints, and only for
/// feedback events that are presses or releases.
pub open spec fn spec_output_send(state: OutputState, event: OutputEvent) -> Option<Seq<u8>> {
    match (state, event) {
        (OutputState::Live, OutputEvent::Feedback(m)) => spec_draw_active(m),
        _ => None,
    }
}

/// Where the output task starts, given the lighting switch.
pub fn output_initial(lights: bool) -> (r: OutputState)
    ensures
        r == spec_output_initial(lights),
{
    if lights {
        OutputState::Painting
    } else {
        OutputState::Stopped
    }
}

/// The frame a feedback event is painted as, if any.
pub fn draw_active_frame(msg: &MidiMessage) -> (r: Option<Vec<u8>>)
    ensures
        r matches Some(v) ==> spec_draw_active(*msg) == Some(v@),
        r is None ==> spec_draw_active(*msg) is None,
{
    match msg {
        MidiMessage::NoteOn(_ch, note, _vel) => {
            if note.is_in_range() {
                Some(MidiMessage::NoteOn(0, *note, COLOR_PAD_ON).to_bytes())
            } else {
                None
            }
        },
        MidiMessage::NoteOff(_ch, note) => {
            if note.is_in_range() {
                Some(MidiMessage::NoteOn(0, *note, COLOR_PAD_OFF).to_bytes())
            } else {
                None
            }
        },
        MidiMessage::AfterTouch(_ch, _note, _vel) => None,
        MidiMessage::Clock => None,
        MidiMessage::Unknown => None,
    }
}

/// The startup paint: one off-color frame for every mapped pad, in
/// ascending note order.  This must be sent in full before the task goes
/// live.
pub fn draw_mapping_frames(table: &MappingTable) -> (r: Vec<Vec<u8>>)
    requires
        table.wf(),
    ensures
        r.deep_view() == spec_paint_frames(*table, 128),
{
    let mut out: Vec<Vec<u8>> = Vec::new();
    let mut i: u8 = 0;
    while i < 128
        invariant
            i <= 128,
            table.wf(),
            out.deep_view() == spec_paint_frames(*table, i as int),
        decreases 128 - i,
    {
        let note = MidiNote::from_number(i);
        proof {
            crate::note::lemma_encode_after_decode(i);
        }
        match table.lookup(note) {
            Some(_a) => {
                let frame = MidiMessage::NoteOn(0, note, COLOR_PAD_OFF).to_bytes();
                out.push(frame);
                proof {
                    assert(out.deep_view() =~~= spec_paint_frames(*table, i as int + 1));
                }
            },
            None => {
                proof {
                    assert(out.deep_view() =~~= spec_paint_frames(*table, i as int + 1));
                }
            },
        }
        i = i + 1;
    }
    out
}

/// The shutdown sweep: a release frame for each of the 128 note numbers,
/// unconditionally, so no stray lit pad survives shutdown.
pub fn all_off_frames() -> (r: Vec<Vec<u8>>)
    ensures
        r.deep_view() == spec_all_off_frames(128),
        r@.len() == 128,
{
    let mut out: Vec<Vec<u8>> = Vec::new();
    let mut i: u8 = 0;
    while i < 128
        invariant
            i <= 128,
            out@.len() == i,
            out.deep_view() == spec_all_off_frames(i as int),
        decreases 128 - i,
    {
        let note = MidiNote::from_number(i);
        proof {
            crate::note::lemma_encode_after_decode(i);
        }
        let frame = MidiMessage::NoteOff(0, note).to_bytes();
        out.push(frame);
        proof {
            assert(out.deep_view() =~~= spec_all_off_frames(i as int + 1));
        }
        i = i + 1;
    }
    out
}

/// One step of the output task: decide the frame to send and the state to
/// continue in.
pub fn output_step(state: OutputState, event: &OutputEvent) -> (r: OutputStep)
    ensures
        r.next == spec_output_next(state, *event),
        r.send matches Some(v) ==> spec_output_send(state, *event) == Some(v@),
        r.send is None ==> spec_output_send(state, *event) is None,
{
    match state {
        OutputState::Painting => match event {
            OutputEvent::PaintingDone => OutputStep { send: None, next: OutputState::Live },
            OutputEvent::Cancelled => OutputStep { send: None, next: OutputState::Closing },
            _ => OutputStep { send: None, next: OutputState::Painting },
        },
        OutputState::Live => match event {
            OutputEvent::Feedback(m) => OutputStep {
                send: draw_active_frame(m),
                next: OutputState::Live,
            },
            OutputEvent::Cancelled => OutputStep { send: None, next: OutputState::Closing },
            _ => OutputStep { send: None, next: OutputState::Live },
        },
        OutputState::Closing => match event {
            OutputEvent::SweepDone => OutputStep { send: None, next: OutputState::Stopped },
            _ => OutputStep { send: None, next: OutputState::Closing },
        },
        OutputState::Stopped => OutputStep { send: None, next: OutputState::Stopped },
    }
}

/// The shutdown sweep over `n` pads holds `n` frames.
proof fn lemma_all_off_len(n: int)
    requires
        0 <= n,
    ensures
        spec_all_off_frames(n).len() == n,
    decreases n,
{
    if n > 0 {
        lemma_all_off_len(n - 1);
    }
}

/// Idempotent shutdown sweep: the sweep depends on no state, so sending it
/// twice produces the same 128 frames both times.
pub proof fn lemma_all_off_sweep_idempotent(a: Seq<Seq<u8>>, b: Seq<Seq<u8>>)
    requires
        a == spec_all_off_frames(128),
        b == spec_all_off_frames(128),
    ensures
        a == b,
        a.len() == 128,
{
    lemma_all_off_len(128);
}

} // verus!
