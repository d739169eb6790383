use lp_pro_gamecontroller::mapping::Action;
use lp_pro_gamecontroller::mapping::ActionEffect;
use lp_pro_gamecontroller::mapping::KeySym;
use lp_pro_gamecontroller::mapping::MappingTable;
use lp_pro_gamecontroller::mapping::press_effect;
use lp_pro_gamecontroller::mapping::release_effect;
use lp_pro_gamecontroller::note::MidiNote;

#[test]
fn insert_and_lookup() {
    let mut table = MappingTable::new();
    assert!(table.insert(MidiNote::C(3), Action::Key(KeySym(7))));
    assert_eq!(table.lookup(MidiNote::C(3)), Some(&Action::Key(KeySym(7))));
    assert_eq!(table.lookup(MidiNote::D(3)), None);
}

#[test]
fn insert_replaces_earlier_binding() {
    let mut table = MappingTable::new();
    assert!(table.insert(MidiNote::E(2), Action::Key(KeySym(1))));
    assert!(table.insert(MidiNote::E(2), Action::Key(KeySym(2))));
    assert_eq!(table.lookup(MidiNote::E(2)), Some(&Action::Key(KeySym(2))));
}

#[test]
fn out_of_range_pitch_is_refused() {
    let mut table = MappingTable::new();
    assert!(!table.insert(MidiNote::C(22), Action::Key(KeySym(1))));
    assert_eq!(table.lookup(MidiNote::C(22)), None);
}

#[test]
fn key_action_effects() {
    let a = Action::Key(KeySym(42));
    assert_eq!(press_effect(&a), Some(ActionEffect::KeyDown(KeySym(42))));
    assert_eq!(release_effect(&a), Some(ActionEffect::KeyUp(KeySym(42))));
}

#[test]
fn shell_action_effects() {
    let a = Action::Shell { press: Some(String::from("play")), release: None };
    assert_eq!(press_effect(&a), Some(ActionEffect::RunShell(String::from("play"))));
    assert_eq!(release_effect(&a), None);
    let b = Action::Shell { press: None, release: Some(String::from("stop")) };
    assert_eq!(press_effect(&b), None);
    assert_eq!(release_effect(&b), Some(ActionEffect::RunShell(String::from("stop"))));
}
