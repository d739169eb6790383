use lp_pro_gamecontroller::message::Message;
use lp_pro_gamecontroller::message::MidiMessage;
use lp_pro_gamecontroller::note::MidiNote;

#[test]
fn decode_note_on() {
    assert_eq!(
        MidiMessage::parse(&[0x90, 48, 100]),
        MidiMessage::NoteOn(0, MidiNote::C(4), 100)
    );
    assert_eq!(
        MidiMessage::parse(&[0x93, 36, 1]),
        MidiMessage::NoteOn(3, MidiNote::C(3), 1)
    );
    assert_eq!(
        MidiMessage::parse(&[0x9F, 127, 127]),
        MidiMessage::NoteOn(15, MidiNote::G(10), 127)
    );
}

#[test]
fn decode_note_off() {
    assert_eq!(MidiMessage::parse(&[0x80, 48, 64]), MidiMessage::NoteOff(0, MidiNote::C(4)));
    assert_eq!(MidiMessage::parse(&[0x8A, 0, 0]), MidiMessage::NoteOff(10, MidiNote::C(0)));
}

#[test]
fn decode_velocity_zero_is_note_off() {
    let from_zero_velocity = MidiMessage::parse(&[0x90, 48, 0]);
    let from_note_off = MidiMessage::parse(&[0x80, 48, 77]);
    assert_eq!(from_zero_velocity, MidiMessage::NoteOff(0, MidiNote::C(4)));
    assert_eq!(from_zero_velocity, from_note_off);
    // The convention holds for any note byte: outside the wire range both
    // frames decode to the same Unknown.
    assert_eq!(
        MidiMessage::parse(&[0x90, 0x80, 0]),
        MidiMessage::parse(&[0x80, 0x80, 77])
    );
    assert_eq!(MidiMessage::parse(&[0x90, 0x80, 0]), MidiMessage::Unknown);
}

#[test]
fn decode_aftertouch() {
    assert_eq!(
        MidiMessage::parse(&[0xA5, 60, 99]),
        MidiMessage::AfterTouch(5, MidiNote::C(5), 99)
    );
    assert_eq!(
        MidiMessage::parse(&[0xA0, 36, 0]),
        MidiMessage::AfterTouch(0, MidiNote::C(3), 0)
    );
}

#[test]
fn decode_clock() {
    assert_eq!(MidiMessage::parse(&[0xF8]), MidiMessage::Clock);
}

#[test]
fn decode_unrecognized_frames() {
    assert_eq!(MidiMessage::parse(&[]), MidiMessage::Unknown);
    assert_eq!(MidiMessage::parse(&[0x90]), MidiMessage::Unknown);
    assert_eq!(MidiMessage::parse(&[0x90, 60]), MidiMessage::Unknown);
    assert_eq!(MidiMessage::parse(&[0x70, 60, 100]), MidiMessage::Unknown);
    assert_eq!(MidiMessage::parse(&[0xF9]), MidiMessage::Unknown);
    assert_eq!(MidiMessage::parse(&[0x90, 0x80, 10]), MidiMessage::Unknown);
    assert_eq!(MidiMessage::parse(&[0x90, 60, 0x80]), MidiMessage::Unknown);
    assert_eq!(MidiMessage::parse(&[0x90, 48, 100, 0]), MidiMessage::Unknown);
    assert_eq!(MidiMessage::parse(&[0xB0, 1, 1]), MidiMessage::Unknown);
}

#[test]
fn encode_events() {
    assert_eq!(MidiMessage::NoteOn(0, MidiNote::C(4), 100).to_bytes(), vec![0x90, 48, 100]);
    assert_eq!(MidiMessage::NoteOff(2, MidiNote::D(3)).to_bytes(), vec![0x82, 38, 0]);
    assert_eq!(
        MidiMessage::AfterTouch(15, MidiNote::G(10), 127).to_bytes(),
        vec![0xAF, 127, 127]
    );
}

#[test]
fn encode_decode_round_trip() {
    let samples = [
        MidiMessage::NoteOn(0, MidiNote::C(3), 100),
        MidiMessage::NoteOn(15, MidiNote::B(9), 1),
        MidiMessage::NoteOff(7, MidiNote::FS(2)),
        MidiMessage::AfterTouch(3, MidiNote::A(5), 0),
    ];
    for m in samples {
        assert_eq!(MidiMessage::parse(&m.to_bytes()), m);
    }
}

#[test]
fn message_parse_keeps_timestamp() {
    let m = Message::parse(5, &[0x90, 36, 10]);
    assert_eq!(m.0, 5);
    assert_eq!(m.1, MidiMessage::NoteOn(0, MidiNote::C(3), 10));
}
