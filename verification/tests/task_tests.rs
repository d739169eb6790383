use lp_pro_gamecontroller::cancel::CancellationSignal;
use lp_pro_gamecontroller::input::DispatchKind;
use lp_pro_gamecontroller::input::InputEvent;
use lp_pro_gamecontroller::input::InputState;
use lp_pro_gamecontroller::input::input_step;
use lp_pro_gamecontroller::mapping::Action;
use lp_pro_gamecontroller::mapping::KeySym;
use lp_pro_gamecontroller::mapping::MappingTable;
use lp_pro_gamecontroller::message::Message;
use lp_pro_gamecontroller::message::MidiMessage;
use lp_pro_gamecontroller::note::MidiNote;
use lp_pro_gamecontroller::output::OutputEvent;
use lp_pro_gamecontroller::output::OutputState;
use lp_pro_gamecontroller::output::all_off_frames;
use lp_pro_gamecontroller::output::draw_active_frame;
use lp_pro_gamecontroller::output::draw_mapping_frames;
use lp_pro_gamecontroller::output::output_initial;
use lp_pro_gamecontroller::output::output_step;

fn c3_key_table() -> MappingTable {
    let mut table = MappingTable::new();
    assert!(table.insert(MidiNote::C(3), Action::Key(KeySym(23))));
    table
}

#[test]
fn mapped_press_and_release_dispatch_in_order() {
    let table = c3_key_table();
    let m1 = Message::parse(0, &[0x90, 36, 100]);
    let s1 = input_step(&table, InputState::Running, &InputEvent::Inbound(m1));
    match s1.dispatch {
        Some((DispatchKind::On, a)) => assert_eq!(a, &Action::Key(KeySym(23))),
        _ => panic!("press of a mapped pad must dispatch its action"),
    }
    assert_eq!(s1.feedback, Some(MidiMessage::NoteOn(0, MidiNote::C(3), 100)));
    assert_eq!(s1.next, InputState::Running);

    let m2 = Message::parse(1, &[0x80, 36, 0]);
    let s2 = input_step(&table, s1.next, &InputEvent::Inbound(m2));
    match s2.dispatch {
        Some((DispatchKind::Off, a)) => assert_eq!(a, &Action::Key(KeySym(23))),
        _ => panic!("release of a mapped pad must dispatch its action"),
    }
    assert_eq!(s2.feedback, Some(MidiMessage::NoteOff(0, MidiNote::C(3))));
    assert_eq!(s2.next, InputState::Running);
}

#[test]
fn unmapped_press_publishes_feedback_without_dispatch() {
    let table = c3_key_table();
    let m = Message::parse(0, &[0x90, 38, 100]);
    let s = input_step(&table, InputState::Running, &InputEvent::Inbound(m));
    assert!(s.dispatch.is_none());
    assert_eq!(s.feedback, Some(MidiMessage::NoteOn(0, MidiNote::D(3), 100)));
    // The startup paint never lit pad 38: only the mapped pad 36 is painted.
    let painted = draw_mapping_frames(&table);
    assert_eq!(painted, vec![vec![0x90, 36, 11]]);
    // The live draw still reacts to the event type and targets pad 38.
    assert_eq!(
        draw_active_frame(&MidiMessage::NoteOn(0, MidiNote::D(3), 100)),
        Some(vec![0x90, 38, 120])
    );
}

#[test]
fn aftertouch_never_dispatches() {
    let table = c3_key_table();
    let m = Message::parse(0, &[0xA0, 36, 80]);
    assert_eq!(m.1, MidiMessage::AfterTouch(0, MidiNote::C(3), 80));
    let s = input_step(&table, InputState::Running, &InputEvent::Inbound(m));
    assert!(s.dispatch.is_none());
    assert!(s.feedback.is_none());
    assert_eq!(s.next, InputState::Running);
}

#[test]
fn clock_and_unknown_have_no_effects() {
    let table = c3_key_table();
    for frame in [vec![0xF8u8], vec![0x01, 0x02]] {
        let m = Message::parse(0, &frame);
        let s = input_step(&table, InputState::Running, &InputEvent::Inbound(m));
        assert!(s.dispatch.is_none());
        assert!(s.feedback.is_none());
        assert_eq!(s.next, InputState::Running);
    }
}

#[test]
fn input_task_stops_on_closed_stream() {
    let table = c3_key_table();
    let s = input_step(&table, InputState::Running, &InputEvent::Closed);
    assert!(s.dispatch.is_none());
    assert!(s.feedback.is_none());
    assert_eq!(s.next, InputState::Stopped);
}

#[test]
fn cancellation_while_blocked_stops_both_tasks() {
    let table = c3_key_table();
    // The input task leaves its loop without processing further messages.
    let s = input_step(&table, InputState::Running, &InputEvent::Cancelled);
    assert!(s.dispatch.is_none());
    assert!(s.feedback.is_none());
    assert_eq!(s.next, InputState::Draining);
    let s2 = input_step(&table, s.next, &InputEvent::Closed);
    assert_eq!(s2.next, InputState::Stopped);
    assert!(s2.dispatch.is_none());
    assert!(s2.feedback.is_none());
    // The output task owes the 128-frame sweep before it exits.
    let o = output_step(OutputState::Live, &OutputEvent::Cancelled);
    assert!(o.send.is_none());
    assert_eq!(o.next, OutputState::Closing);
    assert_eq!(all_off_frames().len(), 128);
    let done = output_step(OutputState::Closing, &OutputEvent::SweepDone);
    assert_eq!(done.next, OutputState::Stopped);
}

#[test]
fn shutdown_sweep_is_idempotent() {
    let first = all_off_frames();
    let second = all_off_frames();
    assert_eq!(first, second);
    assert_eq!(first.len(), 128);
    assert_eq!(first[0], vec![0x80, 0, 0]);
    assert_eq!(first[36], vec![0x80, 36, 0]);
    assert_eq!(first[127], vec![0x80, 127, 0]);
}

#[test]
fn output_startup_paints_before_live() {
    assert_eq!(output_initial(false), OutputState::Stopped);
    assert_eq!(output_initial(true), OutputState::Painting);
    let s = output_step(OutputState::Painting, &OutputEvent::PaintingDone);
    assert!(s.send.is_none());
    assert_eq!(s.next, OutputState::Live);
}

#[test]
fn live_feedback_paints_pads() {
    let press = output_step(
        OutputState::Live,
        &OutputEvent::Feedback(MidiMessage::NoteOn(0, MidiNote::C(3), 100)),
    );
    assert_eq!(press.send, Some(vec![0x90, 36, 120]));
    assert_eq!(press.next, OutputState::Live);
    let release = output_step(
        OutputState::Live,
        &OutputEvent::Feedback(MidiMessage::NoteOff(0, MidiNote::C(3))),
    );
    assert_eq!(release.send, Some(vec![0x90, 36, 11]));
    let tick = output_step(OutputState::Live, &OutputEvent::Feedback(MidiMessage::Clock));
    assert!(tick.send.is_none());
    assert_eq!(tick.next, OutputState::Live);
}

#[test]
fn cancellation_signal_fires_once() {
    let mut signal = CancellationSignal::new();
    assert!(!signal.is_fired());
    assert!(signal.fire());
    assert!(signal.is_fired());
    assert!(!signal.fire());
    assert!(signal.is_fired());
}
