//! The message codec: raw channel-voice frames decoded into typed events and
//! typed events encoded back into frames.
use vstd::prelude::*;

use crate::note::MidiNote;
use crate::note::spec_decode;

verus! {

/// The channel a frame addresses: 0..=15, carried in the low nibble of the
/// status byte.
pub type MidiChannel = u8;

/// A key velocity or aftertouch pressure: 0..=127 on the wire.
pub type MidiVelocity = u8;

/// A typed channel-voice event, as decoded from a raw frame.
#[derive(Debug, Clone, Copy, PartialEq, Eq, Structural)]
pub enum MidiMessage {
    /// A pad was pressed with a non-zero velocity.
    NoteOn(MidiChannel, MidiNote, MidiVelocity),
    /// A pad was released.
    NoteOff(MidiChannel, MidiNote),
    /// Pressure changed on a held pad; carries the pressure value.
    AfterTouch(MidiChannel, MidiNote, MidiVelocity),
    /// A timing tick; no payload.
    Clock,
    /// A frame outside the recognized tables; its payload is discarded.
    Unknown,
}

impl MidiMessage {
    /// Every field lies within the wire format's ranges: channel 0..=15,
    /// note number 0..=127, velocity 1..=127 for a press, pressure 0..=127.
    /// Everything the decoder produces satisfies this.
    pub open spec fn wf(self) -> bool {
        match self {
            MidiMessage::NoteOn(ch, n, v) => ch < 16 && n.in_range() && 1 <= v <= 127,
            MidiMessage::NoteOff(ch, n) => ch < 16 && n.in_range(),
            MidiMessage::AfterTouch(ch, n, v) => ch < 16 && n.in_range() && v <= 127,
            MidiMessage::Clock => true,
            MidiMessage::Unknown => true,
        }
    }

    /// Whether the event has a frame encoding of its own.  `Clock` and
    /// `Unknown` do not: they are never re-sent.
    pub open spec fn encodable(self) -> bool {
        self is NoteOn || self is NoteOff || self is AfterTouch
    }

    /// The frame an encodable event is sent as.  A release is always sent
    /// with a zero velocity byte.
    pub open spec fn spec_to_bytes(self) -> Seq<u8> {
        match self {
            MidiMessage::NoteOn(ch, n, v) => seq![(0x90 + ch) as u8, n.number() as u8, v],
            MidiMessage::NoteOff(ch, n) => seq![(0x80 + ch) as u8, n.number() as u8, 0u8],
            MidiMessage::AfterTouch(ch, n, v) => seq![(0xA0 + ch) as u8, n.number() as u8, v],
            MidiMessage::Clock => arbitrary(),
            MidiMessage::Unknown => arbitrary(),
        }
    }
}

/// What a raw frame decodes to.
///
/// The status-byte table: `0x9c nn vv` with `vv` in 1..=127 is a press on
/// channel `c`; `0x8c nn vv` is a release, as is `0x9c nn 00` (the zero
/// velocity convention); `0xAc nn pp` is aftertouch; the lone byte `0xF8` is
/// a clock tick.  Data bytes must stay below `0x80`; anything else — wrong
/// length included — is `Unknown`.
pub open spec fn spec_decode_frame(d: Seq<u8>) -> MidiMessage {
    if d.len() == 3 && 0x90 <= d[0] <= 0x9F && d[1] < 0x80 && 1 <= d[2] < 0x80 {
        MidiMessage::NoteOn((d[0] - 0x90) as u8, spec_decode(d[1]), d[2])
    } else if d.len() == 3 && 0x80 <= d[0] <= 0x8F && d[1] < 0x80 {
        MidiMessage::NoteOff((d[0] - 0x80) as u8, spec_decode(d[1]))
    } else if d.len() == 3 && 0x90 <= d[0] <= 0x9F && d[1] < 0x80 && d[2] == 0 {
        MidiMessage::NoteOff((d[0] - 0x90) as u8, spec_decode(d[1]))
    } else if d.len() == 3 && 0xA0 <= d[0] <= 0xAF && d[1] < 0x80 && d[2] < 0x80 {
        MidiMessage::AfterTouch((d[0] - 0xA0) as u8, spec_decode(d[1]), d[2])
    } else if d.len() == 1 && d[0] == 0xF8 {
        MidiMessage::Clock
    } else {
        MidiMessage::Unknown
    }
}

/// Whether a byte sequence matches any row of the status-byte table.
pub open spec fn frame_recognized(d: Seq<u8>) -> bool {
    ||| (d.len() == 3 && 0x90 <= d[0] <= 0x9F && d[1] < 0x80 && d[2] < 0x80)
    ||| (d.len() == 3 && 0x80 <= d[0] <= 0x8F && d[1] < 0x80)
    ||| (d.len() == 3 && 0xA0 <= d[0] <= 0xAF && d[1] < 0x80 && d[2] < 0x80)
    ||| (d.len() == 1 && d[0] == 0xF8)
}

impl MidiMessage {
    /// Decode a raw frame.  Total: any sequence outside the status-byte
    /// table — empty and single-byte inputs included — yields `Unknown`,
    /// never an error.
    pub fn parse(data: &[u8]) -> (r: MidiMessage)
        ensures
            r == spec_decode_frame(data@),
            r.wf(),
    {
        if data.len() == 3 {
            let status = data[0];
            let note = data[1];
            let third = data[2];
            if status >= 0x90 && status <= 0x9F && note < 0x80 && third >= 1 && third < 0x80 {
                MidiMessage::NoteOn(status - 0x90, MidiNote::from_number(note), third)
            } else if status >= 0x80 && status <= 0x8F && note < 0x80 {
                MidiMessage::NoteOff(status - 0x80, MidiNote::from_number(note))
            } else if status >= 0x90 && status <= 0x9F && note < 0x80 && third == 0 {
                MidiMessage::NoteOff(status - 0x90, MidiNote::from_number(note))
            } else if status >= 0xA0 && status <= 0xAF && note < 0x80 && third < 0x80 {
                MidiMessage::AfterTouch(status - 0xA0, MidiNote::from_number(note), third)
            } else {
                MidiMessage::Unknown
            }
        } else if data.len() == 1 {
            if data[0] == 0xF8 {
                MidiMessage::Clock
            } else {
                MidiMessage::Unknown
            }
        } else {
            MidiMessage::Unknown
        }
    }

    /// Encode an event back into the frame it is sent as.  Only presses,
    /// releases and aftertouch have an outbound form; a caller holding an
    /// arbitrary event checks `is` first — asking for bytes of `Clock` or
    /// `Unknown` is a programming error, not a runtime condition.
    pub fn to_bytes(&self) -> (r: Vec<u8>)
        requires
            self.wf(),
            self.encodable(),
        ensures
            r@ == self.spec_to_bytes(),
    {
        match self {
            MidiMessage::NoteOn(ch, n, v) => {
                let mut out: Vec<u8> = Vec::new();
                out.push(0x90 + *ch);
                out.push(n.to_number());
                out.push(*v);
                proof {
                    assert(out@ =~= self.spec_to_bytes());
                }
                out
            },
            MidiMessage::NoteOff(ch, n) => {
                let mut out: Vec<u8> = Vec::new();
                out.push(0x80 + *ch);
                out.push(n.to_number());
                out.push(0);
                proof {
                    assert(out@ =~= self.spec_to_bytes());
                }
                out
            },
            MidiMessage::AfterTouch(ch, n, v) => {
                let mut out: Vec<u8> = Vec::new();
                out.push(0xA0 + *ch);
                out.push(n.to_number());
                out.push(*v);
                proof {
                    assert(out@ =~= self.spec_to_bytes());
                }
                out
            },
            MidiMessage::Clock => {
                proof {
                    assert(false);
                }
                vstd::pervasive::unreached()
            },
            MidiMessage::Unknown => {
                proof {
                    assert(false);
                }
                vstd::pervasive::unreached()
            },
        }
    }
}

/// A frame is decoded to something other than `Unknown` exactly when it
/// matches a row of the status-byte table.
pub proof fn lemma_codec_totality(d: Seq<u8>)
    ensures
        frame_recognized(d) <==> !(spec_decode_frame(d) is Unknown),
{
}

/// The zero-velocity convention: a press frame whose velocity byte is zero
/// decodes identically to a release frame for the same note byte, whatever
/// velocity byte the release frame carries.  For a note byte inside the
/// wire range that common event is the release itself; outside it both
/// frames are `Unknown`.
pub proof fn lemma_velocity_zero_is_note_off(ch: u8, n: u8, v: u8)
    requires
        ch < 16,
    ensures
        spec_decode_frame(seq![(0x90 + ch) as u8, n, 0u8]) == spec_decode_frame(
            seq![(0x80 + ch) as u8, n, v],
        ),
        n < 0x80 ==> spec_decode_frame(seq![(0x90 + ch) as u8, n, 0u8]) == MidiMessage::NoteOff(
            ch,
            spec_decode(n),
        ),
        n >= 0x80 ==> spec_decode_frame(seq![(0x90 + ch) as u8, n, 0u8]) is Unknown,
{
}

/// Encoding an event and decoding the frame gives the event back; a press
/// comes back as a press, a release as a release.
pub proof fn lemma_frame_round_trip(m: MidiMessage)
    requires
        m.wf(),
        m.encodable(),
    ensures
        spec_decode_frame(m.spec_to_bytes()) == m,
{
    match m {
        MidiMessage::NoteOn(ch, n, v) => {
            crate::note::lemma_decode_after_encode(n);
        },
        MidiMessage::NoteOff(ch, n) => {
            crate::note::lemma_decode_after_encode(n);
        },
        MidiMessage::AfterTouch(ch, n, v) => {
            crate::note::lemma_decode_after_encode(n);
        },
        _ => {
        },
    }
}

/// A timestamped inbound frame, as handed over by the transport, with its
/// decoded event.
#[derive(Debug, Clone, Copy, PartialEq, Eq, Structural)]
pub struct Message(pub u64, pub MidiMessage);

impl Message {
    /// Decode a timestamped raw frame.
    pub fn parse(ts: u64, data: &[u8]) -> (r: Self)
        ensures
            r.0 == ts,
            r.1 == spec_decode_frame(data@),
            r.1.wf(),
    {
        Message(ts, MidiMessage::parse(data))
    }
}

} // verus!
