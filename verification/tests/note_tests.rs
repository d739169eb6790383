use lp_pro_gamecontroller::note::MappingError;
use lp_pro_gamecontroller::note::MidiNote;
use lp_pro_gamecontroller::note::octave_suffix_ok;

#[test]
fn test_parsing() {
    assert_eq!(MidiNote::parse("C5"), Ok(MidiNote::C(5)));
    assert_eq!(MidiNote::parse("C#3"), Ok(MidiNote::CS(3)));
    assert_eq!(MidiNote::parse("CS3"), Ok(MidiNote::CS(3)));
    assert_eq!(MidiNote::parse("FS5"), Ok(MidiNote::FS(5)));
    assert_eq!(MidiNote::parse("F#5"), Ok(MidiNote::FS(5)));
    assert_eq!(MidiNote::parse("A10"), Ok(MidiNote::A(10)));
    assert_eq!(MidiNote::parse("  B0  "), Ok(MidiNote::B(0)));
    assert_eq!(MidiNote::parse("G#7"), Ok(MidiNote::GS(7)));
}

#[test]
fn surrounding_unicode_whitespace_is_trimmed() {
    // Every char::is_whitespace character is stripped, exactly as str::trim
    // would strip it: form feed, NBSP, ideographic space included.
    assert_eq!(MidiNote::parse("\u{000C}C3\u{000C}"), Ok(MidiNote::C(3)));
    assert_eq!(MidiNote::parse("\u{00A0}FS5\u{3000}"), Ok(MidiNote::FS(5)));
    assert_eq!(MidiNote::parse("\u{2028}\u{2009}D2\t\n"), Ok(MidiNote::D(2)));
    for raw in ["C3", "\u{000C}C3", "C3\u{00A0}", " \u{205F}C3\u{1680} "] {
        assert!(octave_suffix_ok(raw));
        assert_eq!(MidiNote::parse(raw), MidiNote::parse(raw.trim()));
    }
}

#[test]
fn test_unsupported_notes_fail() {
    assert_eq!(MidiNote::parse("H3"), Err(MappingError::UnknownMidiKey));
    assert_eq!(MidiNote::parse("E#2"), Err(MappingError::UnknownMidiKey));
    assert_eq!(MidiNote::parse("B#1"), Err(MappingError::UnknownMidiKey));
    assert_eq!(MidiNote::parse("x4"), Err(MappingError::UnknownMidiKey));
    assert_eq!(MidiNote::parse("CC5"), Err(MappingError::UnknownMidiKey));
}

#[test]
fn number_round_trip_all_wire_values() {
    for n in 0u8..=127 {
        let p = MidiNote::from_number(n);
        assert!(p.is_in_range());
        assert_eq!(p.to_number(), n);
    }
}

#[test]
fn decode_fixed_points() {
    assert_eq!(MidiNote::from_number(0), MidiNote::C(0));
    assert_eq!(MidiNote::from_number(36), MidiNote::C(3));
    assert_eq!(MidiNote::from_number(38), MidiNote::D(3));
    assert_eq!(MidiNote::from_number(48), MidiNote::C(4));
    assert_eq!(MidiNote::from_number(127), MidiNote::G(10));
}

#[test]
fn canonical_names() {
    assert_eq!(MidiNote::C(3).to_name(), "C3");
    assert_eq!(MidiNote::FS(5).to_name(), "FS5");
    assert_eq!(MidiNote::AS(0).to_name(), "AS0");
    assert_eq!(MidiNote::B(10).to_name(), "B10");
    assert_eq!(MidiNote::E(255).to_name(), "E255");
}

#[test]
fn parse_inverts_canonical_names() {
    for n in 0u8..=127 {
        let p = MidiNote::from_number(n);
        let name = p.to_name();
        assert!(octave_suffix_ok(&name));
        assert_eq!(MidiNote::parse(&name), Ok(p));
    }
}

#[test]
fn octave_suffix_validity() {
    assert!(octave_suffix_ok("C3"));
    assert!(octave_suffix_ok("H0"));
    assert!(octave_suffix_ok(" FS10 "));
    assert!(!octave_suffix_ok("C"));
    assert!(!octave_suffix_ok("C-3"));
    assert!(!octave_suffix_ok("C999"));
    assert!(!octave_suffix_ok(""));
}
