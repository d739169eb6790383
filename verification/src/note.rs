//! The pitch model: a letter name plus an octave, convertible to and from
//! the raw 0..=127 note number that travels on the wire.
use vstd::prelude::*;

verus! {

/// Error raised when a configured note name cannot be interpreted.
#[derive(Debug, Clone, Copy, PartialEq, Eq, Structural)]
pub enum MappingError {
    /// The letter prefix of a note name is not one of the twelve canonical
    /// names or their sharp aliases.
    UnknownMidiKey,
}

/// A pitch class: one of the twelve letter names combined with an octave.
///
/// The value is the stable application-level key; the raw wire byte is
/// obtained through [`MidiNote::to_number`] and read back through
/// [`MidiNote::from_number`].
#[derive(Debug, Clone, Copy, PartialEq, Eq, Structural)]
pub enum MidiNote {
    C(u8),
    CS(u8),
    D(u8),
    DS(u8),
    E(u8),
    F(u8),
    FS(u8),
    G(u8),
    GS(u8),
    A(u8),
    AS(u8),
    B(u8),
}

/// The pitch class with letter index `letter` (C = 0 ... B = 11) and the
/// given octave.
pub open spec fn note_of(letter: int, octave: u8) -> MidiNote {
    if letter == 0 {
        MidiNote::C(octave)
    } else if letter == 1 {
        MidiNote::CS(octave)
    } else if letter == 2 {
        MidiNote::D(octave)
    } else if letter == 3 {
        MidiNote::DS(octave)
    } else if letter == 4 {
        MidiNote::E(octave)
    } else if letter == 5 {
        MidiNote::F(octave)
    } else if letter == 6 {
        MidiNote::FS(octave)
    } else if letter == 7 {
        MidiNote::G(octave)
    } else if letter == 8 {
        MidiNote::GS(octave)
    } else if letter == 9 {
        MidiNote::A(octave)
    } else if letter == 10 {
        MidiNote::AS(octave)
    } else {
        MidiNote::B(octave)
    }
}

/// The pitch class denoted by a raw note number: octave `n / 12`, letter
/// index `n % 12`.
pub open spec fn spec_decode(n: u8) -> MidiNote {
    note_of(n as int % 12, n / 12)
}

impl MidiNote {
    /// Index of the letter name within the twelve-tone octave (C = 0 ... B = 11).
    pub open spec fn letter(self) -> int {
        match self {
            MidiNote::C(_) => 0,
            MidiNote::CS(_) => 1,
            MidiNote::D(_) => 2,
            MidiNote::DS(_) => 3,
            MidiNote::E(_) => 4,
            MidiNote::F(_) => 5,
            MidiNote::FS(_) => 6,
            MidiNote::G(_) => 7,
            MidiNote::GS(_) => 8,
            MidiNote::A(_) => 9,
            MidiNote::AS(_) => 10,
            MidiNote::B(_) => 11,
        }
    }

    /// The octave the pitch class lies in.
    pub open spec fn octave(self) -> u8 {
        match self {
            MidiNote::C(o) => o,
            MidiNote::CS(o) => o,
            MidiNote::D(o) => o,
            MidiNote::DS(o) => o,
            MidiNote::E(o) => o,
            MidiNote::F(o) => o,
            MidiNote::FS(o) => o,
            MidiNote::G(o) => o,
            MidiNote::GS(o) => o,
            MidiNote::A(o) => o,
            MidiNote::AS(o) => o,
            MidiNote::B(o) => o,
        }
    }

    /// The raw note number this pitch class stands for.
    pub open spec fn number(self) -> int {
        self.octave() * 12 + self.letter()
    }

    /// Whether the pitch class fits the 0..=127 wire range.
    pub open spec fn in_range(self) -> bool {
        self.number() <= 127
    }

    /// Decode a raw note number into its pitch class.  Total: every byte has
    /// an octave (`n / 12`) and a letter index (`n % 12`).
    pub fn from_number(n: u8) -> (r: Self)
        ensures
            r == spec_decode(n),
            n < 128 ==> r.in_range(),
    {
        let octave: u8 = n / 12;
        let key: u8 = n % 12;
        proof {
            vstd::arithmetic::div_mod::lemma_fundamental_div_mod(n as int, 12);
        }
        match key {
            0 => MidiNote::C(octave),
            1 => MidiNote::CS(octave),
            2 => MidiNote::D(octave),
            3 => MidiNote::DS(octave),
            4 => MidiNote::E(octave),
            5 => MidiNote::F(octave),
            6 => MidiNote::FS(octave),
            7 => MidiNote::G(octave),
            8 => MidiNote::GS(octave),
            9 => MidiNote::A(octave),
            10 => MidiNote::AS(octave),
            _ => MidiNote::B(octave),
        }
    }

    /// Encode the pitch class as its raw note number.
    pub fn to_number(&self) -> (n: u8)
        requires
            self.in_range(),
        ensures
            n == self.number(),
    {
        let (octave, key): (u8, u8) = match self {
            MidiNote::C(o) => (*o, 0),
            MidiNote::CS(o) => (*o, 1),
            MidiNote::D(o) => (*o, 2),
            MidiNote::DS(o) => (*o, 3),
            MidiNote::E(o) => (*o, 4),
            MidiNote::F(o) => (*o, 5),
            MidiNote::FS(o) => (*o, 6),
            MidiNote::G(o) => (*o, 7),
            MidiNote::GS(o) => (*o, 8),
            MidiNote::A(o) => (*o, 9),
            MidiNote::AS(o) => (*o, 10),
            MidiNote::B(o) => (*o, 11),
        };
        octave * 12 + key
    }

    /// Whether the pitch class fits the 0..=127 wire range, decided at run
    /// time.
    pub fn is_in_range(&self) -> (b: bool)
        ensures
            b == self.in_range(),
    {
        let (octave, key): (u8, u8) = match self {
            MidiNote::C(o) => (*o, 0),
            MidiNote::CS(o) => (*o, 1),
            MidiNote::D(o) => (*o, 2),
            MidiNote::DS(o) => (*o, 3),
            MidiNote::E(o) => (*o, 4),
            MidiNote::F(o) => (*o, 5),
            MidiNote::FS(o) => (*o, 6),
            MidiNote::G(o) => (*o, 7),
            MidiNote::GS(o) => (*o, 8),
            MidiNote::A(o) => (*o, 9),
            MidiNote::AS(o) => (*o, 10),
            MidiNote::B(o) => (*o, 11),
        };
        (octave as u32) * 12 + (key as u32) <= 127
    }
}

/// Whitespace stripped from both ends of a note name before it is read:
/// the Unicode `White_Space` characters, exactly what
/// `char::is_whitespace` admits.
pub open spec fn is_space_char(c: char) -> bool {
    ||| (9 <= c as u32 && c as u32 <= 13)
    ||| c as u32 == 0x20
    ||| c as u32 == 0x85
    ||| c as u32 == 0xA0
    ||| c as u32 == 0x1680
    ||| (0x2000 <= c as u32 && c as u32 <= 0x200A)
    ||| c as u32 == 0x2028
    ||| c as u32 == 0x2029
    ||| c as u32 == 0x202F
    ||| c as u32 == 0x205F
    ||| c as u32 == 0x3000
}

/// Whether a character is Unicode whitespace, decided at run time.
fn is_space(c: char) -> (b: bool)
    ensures
        b == is_space_char(c),
{
    let u = c as u32;
    (9 <= u && u <= 13) || u == 0x20 || u == 0x85 || u == 0xA0 || u == 0x1680 || (0x2000 <= u && u
        <= 0x200A) || u == 0x2028 || u == 0x2029 || u == 0x202F || u == 0x205F || u == 0x3000
}

/// An ASCII decimal digit.
pub open spec fn is_digit_char(c: char) -> bool {
    48 <= c as u32 && c as u32 <= 57
}

/// A character belonging to the octave suffix of a note name: a digit or a
/// minus sign (a negative-looking octave is split off but never valid).
pub open spec fn is_octave_char(c: char) -> bool {
    is_digit_char(c) || c == '-'
}

/// The name with surrounding whitespace removed.
pub open spec fn spec_trim(s: Seq<char>) -> Seq<char>
    decreases s.len(),
{
    if s.len() == 0 {
        s
    } else if is_space_char(s[0]) {
        spec_trim(s.drop_first())
    } else if is_space_char(s[s.len() - 1]) {
        spec_trim(s.drop_last())
    } else {
        s
    }
}

/// The letter prefix of a trimmed name: every character that does not belong
/// to the octave suffix, in order.
pub open spec fn spec_letter_part(s: Seq<char>) -> Seq<char>
    decreases s.len(),
{
    if s.len() == 0 {
        Seq::empty()
    } else if is_octave_char(s.last()) {
        spec_letter_part(s.drop_last())
    } else {
        spec_letter_part(s.drop_last()).push(s.last())
    }
}

/// The octave suffix of a trimmed name: every digit or minus sign, in order.
pub open spec fn spec_octave_part(s: Seq<char>) -> Seq<char>
    decreases s.len(),
{
    if s.len() == 0 {
        Seq::empty()
    } else if is_octave_char(s.last()) {
        spec_octave_part(s.drop_last()).push(s.last())
    } else {
        spec_octave_part(s.drop_last())
    }
}

/// The base-10 value of a digit sequence (meaningful when every character is
/// a digit).
pub open spec fn spec_digits_val(s: Seq<char>) -> int
    decreases s.len(),
{
    if s.len() == 0 {
        0
    } else {
        spec_digits_val(s.drop_last()) * 10 + (s.last() as u32 - 48)
    }
}

/// Every character of the sequence is an ASCII digit.
pub open spec fn all_digits(s: Seq<char>) -> bool {
    forall|i: int| 0 <= i < s.len() ==> is_digit_char(#[trigger] s[i])
}

/// The octave an octave suffix denotes: defined exactly when the suffix is a
/// non-empty run of digits whose value fits in a byte.
pub open spec fn spec_octave_value(s: Seq<char>) -> Option<u8> {
    if s.len() > 0 && all_digits(s) && spec_digits_val(s) <= 255 {
        Some(spec_digits_val(s) as u8)
    } else {
        None
    }
}

/// Whether the octave suffix of the name is valid.  A name whose suffix fails
/// this is a fatal configuration error for [`MidiNote::parse`]; callers test
/// it with [`octave_suffix_ok`].
pub open spec fn octave_suffix_valid(s: Seq<char>) -> bool {
    spec_octave_value(spec_octave_part(spec_trim(s))) is Some
}

/// The letter index a letter prefix denotes: the twelve canonical names, with
/// `#` and `S` both accepted as the sharp suffix.
pub open spec fn spec_letter_index(s: Seq<char>) -> Option<u8> {
    if s.len() == 1 {
        if s[0] == 'C' {
            Some(0u8)
        } else if s[0] == 'D' {
            Some(2u8)
        } else if s[0] == 'E' {
            Some(4u8)
        } else if s[0] == 'F' {
            Some(5u8)
        } else if s[0] == 'G' {
            Some(7u8)
        } else if s[0] == 'A' {
            Some(9u8)
        } else if s[0] == 'B' {
            Some(11u8)
        } else {
            None
        }
    } else if s.len() == 2 && (s[1] == '#' || s[1] == 'S') {
        if s[0] == 'C' {
            Some(1u8)
        } else if s[0] == 'D' {
            Some(3u8)
        } else if s[0] == 'F' {
            Some(6u8)
        } else if s[0] == 'G' {
            Some(8u8)
        } else if s[0] == 'A' {
            Some(10u8)
        } else {
            None
        }
    } else {
        None
    }
}

/// What [`MidiNote::parse`] returns on a name whose octave suffix is valid.
/// On any other name the result is unconstrained: such a name is rejected
/// before parsing.
pub open spec fn spec_parse_result(s: Seq<char>) -> Result<MidiNote, MappingError> {
    let t = spec_trim(s);
    match spec_letter_index(spec_letter_part(t)) {
        Some(l) => match spec_octave_value(spec_octave_part(t)) {
            Some(o) => Ok(note_of(l as int, o)),
            None => arbitrary(),
        },
        None => Err(MappingError::UnknownMidiKey),
    }
}

/// The canonical spelling of a letter index, with `S` as the sharp suffix.
pub open spec fn spec_letter_name(l: int) -> Seq<char> {
    if l == 0 {
        seq!['C']
    } else if l == 1 {
        seq!['C', 'S']
    } else if l == 2 {
        seq!['D']
    } else if l == 3 {
        seq!['D', 'S']
    } else if l == 4 {
        seq!['E']
    } else if l == 5 {
        seq!['F']
    } else if l == 6 {
        seq!['F', 'S']
    } else if l == 7 {
        seq!['G']
    } else if l == 8 {
        seq!['G', 'S']
    } else if l == 9 {
        seq!['A']
    } else if l == 10 {
        seq!['A', 'S']
    } else {
        seq!['B']
    }
}

/// The ASCII digit for a value below ten.
pub open spec fn spec_digit_char(d: int) -> char {
    if d == 0 {
        '0'
    } else if d == 1 {
        '1'
    } else if d == 2 {
        '2'
    } else if d == 3 {
        '3'
    } else if d == 4 {
        '4'
    } else if d == 5 {
        '5'
    } else if d == 6 {
        '6'
    } else if d == 7 {
        '7'
    } else if d == 8 {
        '8'
    } else {
        '9'
    }
}

/// The base-10 digits of a non-negative value, most significant first.
pub open spec fn spec_octave_digits(n: int) -> Seq<char>
    decreases n,
{
    if n < 10 {
        seq![spec_digit_char(n)]
    } else {
        spec_octave_digits(n / 10).push(spec_digit_char(n % 10))
    }
}

/// The canonical name of a pitch class, as [`MidiNote::to_name`] spells it:
/// the letter name followed by the octave in decimal.
pub open spec fn spec_name(p: MidiNote) -> Seq<char> {
    spec_letter_name(p.letter()) + spec_octave_digits(p.octave() as int)
}

/// The digits of a non-negative value are a non-empty digit run with that
/// value.
proof fn lemma_octave_digits_value(n: int)
    requires
        0 <= n,
    ensures
        spec_octave_digits(n).len() >= 1,
        all_digits(spec_octave_digits(n)),
        spec_digits_val(spec_octave_digits(n)) == n,
    decreases n,
{
    if n < 10 {
        assert(spec_digit_char(n) as u32 == 48 + n);
        assert(spec_octave_digits(n) =~= seq![spec_digit_char(n)]);
        assert(spec_octave_digits(n).drop_last() =~= Seq::<char>::empty());
        assert(spec_digits_val(Seq::<char>::empty()) == 0);
        assert(spec_digits_val(spec_octave_digits(n)) == 0 * 10 + (spec_digit_char(n) as u32
            - 48));
    } else {
        lemma_octave_digits_value(n / 10);
        let d = spec_octave_digits(n);
        assert(d.drop_last() =~= spec_octave_digits(n / 10));
        assert(d.last() == spec_digit_char(n % 10));
        assert(spec_digit_char(n % 10) as u32 == 48 + n % 10);
        assert(forall|i: int|
            0 <= i < d.len() ==> is_digit_char(#[trigger] d[i])) by {
            assert(forall|i: int|
                0 <= i < d.len() - 1 ==> d[i] == spec_octave_digits(n / 10)[i]);
        }
        vstd::arithmetic::div_mod::lemma_fundamental_div_mod(n, 10);
    }
}

/// Appending octave characters to a name leaves its letter prefix unchanged
/// and extends its octave suffix.
proof fn lemma_parts_append_octave(a: Seq<char>, b: Seq<char>)
    requires
        forall|i: int| 0 <= i < b.len() ==> is_octave_char(#[trigger] b[i]),
    ensures
        spec_letter_part(a + b) == spec_letter_part(a),
        spec_octave_part(a + b) == spec_octave_part(a) + b,
    decreases b.len(),
{
    if b.len() == 0 {
        assert(a + b =~= a);
        assert(spec_octave_part(a) + b =~= spec_octave_part(a));
    } else {
        let b0 = b.drop_last();
        assert(forall|i: int| 0 <= i < b0.len() ==> is_octave_char(#[trigger] b0[i]));
        lemma_parts_append_octave(a, b0);
        assert((a + b).drop_last() =~= a + b0);
        assert((a + b).last() == b.last());
        assert((spec_octave_part(a) + b0).push(b.last()) =~= spec_octave_part(a) + b);
    }
}

/// A run free of octave characters is its own letter prefix and has an empty
/// octave suffix.
proof fn lemma_parts_all_letters(a: Seq<char>)
    requires
        forall|i: int| 0 <= i < a.len() ==> !is_octave_char(#[trigger] a[i]),
    ensures
        spec_letter_part(a) == a,
        spec_octave_part(a) == Seq::<char>::empty(),
    decreases a.len(),
{
    if a.len() > 0 {
        let a0 = a.drop_last();
        assert(forall|i: int| 0 <= i < a0.len() ==> !is_octave_char(#[trigger] a0[i]));
        lemma_parts_all_letters(a0);
        assert(a0.push(a.last()) =~= a);
    }
}

/// The canonical letter names hold no octave or whitespace characters, and
/// each reads back as its own letter index.
proof fn lemma_letter_name_reads_back(l: int)
    requires
        0 <= l < 12,
    ensures
        spec_letter_name(l).len() >= 1,
        forall|i: int|
            0 <= i < spec_letter_name(l).len() ==> !is_octave_char(#[trigger] spec_letter_name(l)[i])
                && !is_space_char(spec_letter_name(l)[i]),
        spec_letter_index(spec_letter_name(l)) == Some(l as u8),
{
    let s = spec_letter_name(l);
    assert forall|i: int| 0 <= i < s.len() implies !is_octave_char(#[trigger] s[i])
        && !is_space_char(s[i]) by {
        assert(s[i] == 'C' || s[i] == 'D' || s[i] == 'E' || s[i] == 'F' || s[i] == 'G' || s[i]
            == 'A' || s[i] == 'B' || s[i] == 'S');
    }
}

/// A canonical name needs no trimming.
proof fn lemma_name_needs_no_trim(p: MidiNote)
    ensures
        spec_trim(spec_name(p)) == spec_name(p),
{
    let l = p.letter();
    let o = p.octave() as int;
    let s = spec_name(p);
    lemma_letter_name_reads_back(l);
    lemma_octave_digits_value(o);
    assert(s.len() > 0);
    assert(s[0] == spec_letter_name(l)[0]);
    assert(!is_space_char(s[0]));
    assert(s.last() == spec_octave_digits(o).last());
    assert(is_digit_char(s.last()));
    // A digit lies in 48..=57, inside none of the whitespace ranges.
    assert(!is_space_char(s.last()));
}

/// Reading back a canonical name gives the pitch class it spells: for every
/// pitch class `p`, `parse` accepts `to_name(p)` and returns `p`.
pub proof fn lemma_parse_name_round_trip(p: MidiNote)
    ensures
        octave_suffix_valid(spec_name(p)),
        spec_parse_result(spec_name(p)) == Ok::<MidiNote, MappingError>(p),
{
    let l = p.letter();
    let o = p.octave() as int;
    let ln = spec_letter_name(l);
    let od = spec_octave_digits(o);
    lemma_name_needs_no_trim(p);
    lemma_letter_name_reads_back(l);
    lemma_octave_digits_value(o);
    assert(forall|i: int| 0 <= i < od.len() ==> is_octave_char(#[trigger] od[i]));
    lemma_parts_append_octave(ln, od);
    lemma_parts_all_letters(ln);
    assert(spec_letter_part(spec_name(p)) == ln);
    assert(spec_octave_part(spec_name(p)) =~= od);
    assert(spec_octave_value(od) == Some(p.octave()));
    assert(note_of(l, p.octave()) == p);
}

/// Decoding a raw note number and encoding the result gives the number back,
/// for every byte; numbers below 128 decode to an in-range pitch class.
pub proof fn lemma_encode_after_decode(n: u8)
    ensures
        spec_decode(n).number() == n,
        n < 128 ==> spec_decode(n).in_range(),
{
    vstd::arithmetic::div_mod::lemma_fundamental_div_mod(n as int, 12);
}

/// A digit sequence has a non-negative value.
proof fn lemma_digits_val_nonneg(s: Seq<char>)
    requires
        all_digits(s),
    ensures
        spec_digits_val(s) >= 0,
    decreases s.len(),
{
    if s.len() > 0 {
        assert(forall|i: int| 0 <= i < s.drop_last().len() ==> is_digit_char(
            #[trigger] s.drop_last()[i],
        ));
        lemma_digits_val_nonneg(s.drop_last());
    }
}

/// Extending a digit sequence never lowers its value: the value of a prefix
/// is at most the value of the whole.
proof fn lemma_digits_val_prefix_le(s: Seq<char>, i: int)
    requires
        0 <= i <= s.len(),
        all_digits(s),
    ensures
        spec_digits_val(s.subrange(0, i)) <= spec_digits_val(s),
    decreases s.len() - i,
{
    if i < s.len() {
        let a = s.subrange(0, i);
        let b = s.subrange(0, i + 1);
        assert(b.drop_last() =~= a);
        assert(forall|j: int| 0 <= j < a.len() ==> is_digit_char(#[trigger] a[j]));
        lemma_digits_val_nonneg(a);
        assert(spec_digits_val(b) == spec_digits_val(a) * 10 + (b.last() as u32 - 48));
        assert(spec_digits_val(a) * 10 >= spec_digits_val(a));
        lemma_digits_val_prefix_le(s, i + 1);
        assert(s.subrange(0, s.len() as int) =~= s);
    } else {
        assert(s.subrange(0, s.len() as int) =~= s);
    }
}

/// Split a name into its letter prefix and its octave suffix, after trimming
/// surrounding whitespace.
fn split_parts(s: &str) -> (r: (Vec<char>, Vec<char>))
    ensures
        r.0@ == spec_letter_part(spec_trim(s@)),
        r.1@ == spec_octave_part(spec_trim(s@)),
{
    let len: usize = s.unicode_len();
    let mut start: usize = 0;
    let mut end: usize = len;
    proof {
        assert(s@.subrange(0, len as int) =~= s@);
    }
    loop
        invariant
            start <= end <= len,
            len == s@.len(),
            spec_trim(s@) == spec_trim(s@.subrange(start as int, end as int)),
        ensures
            start <= end <= len,
            spec_trim(s@) == s@.subrange(start as int, end as int),
        decreases end - start,
    {
        if start == end {
            proof {
                assert(s@.subrange(start as int, end as int) =~= Seq::<char>::empty());
            }
            break;
        }
        let c = s.get_char(start);
        if is_space(c) {
            proof {
                let t = s@.subrange(start as int, end as int);
                assert(t.drop_first() =~= s@.subrange(start as int + 1, end as int));
            }
            start = start + 1;
        } else {
            let c2 = s.get_char(end - 1);
            if is_space(c2) {
                proof {
                    let t = s@.subrange(start as int, end as int);
                    assert(t.drop_last() =~= s@.subrange(start as int, end as int - 1));
                }
                end = end - 1;
            } else {
                break;
            }
        }
    }
    let ghost t = s@.subrange(start as int, end as int);
    let mut letters: Vec<char> = Vec::new();
    let mut digits: Vec<char> = Vec::new();
    let mut i: usize = start;
    while i < end
        invariant
            start <= i <= end <= s@.len(),
            t == s@.subrange(start as int, end as int),
            letters@ == spec_letter_part(s@.subrange(start as int, i as int)),
            digits@ == spec_octave_part(s@.subrange(start as int, i as int)),
        decreases end - i,
    {
        let c = s.get_char(i);
        proof {
            let u = s@.subrange(start as int, i as int + 1);
            assert(u.drop_last() =~= s@.subrange(start as int, i as int));
            assert(u.last() == s@[i as int]);
        }
        if (c as u32 >= 48 && c as u32 <= 57) || c == '-' {
            digits.push(c);
        } else {
            letters.push(c);
        }
        i = i + 1;
    }
    (letters, digits)
}

/// Read an octave suffix as a byte, or report that it is not a non-empty
/// digit run with a value that fits.
fn octave_value_of(digits: &Vec<char>) -> (r: Option<u8>)
    ensures
        r == spec_octave_value(digits@),
{
    if digits.len() == 0 {
        return None;
    }
    let n: usize = digits.len();
    let mut acc: u32 = 0;
    let mut i: usize = 0;
    while i < n
        invariant
            0 <= i <= n == digits@.len(),
            all_digits(digits@.subrange(0, i as int)),
            acc == spec_digits_val(digits@.subrange(0, i as int)),
            acc <= 255,
        decreases n - i,
    {
        let c = digits[i];
        if !(c as u32 >= 48 && c as u32 <= 57) {
            proof {
                assert(!is_digit_char(digits@[i as int]));
            }
            return None;
        }
        let d: u32 = c as u32 - 48;
        let next: u32 = acc * 10 + d;
        proof {
            let a = digits@.subrange(0, i as int);
            let b = digits@.subrange(0, i as int + 1);
            assert(b.drop_last() =~= a);
            assert(b.last() == digits@[i as int]);
        }
        if next > 255 {
            proof {
                if all_digits(digits@) && spec_digits_val(digits@) <= 255 {
                    lemma_digits_val_prefix_le(digits@, i as int + 1);
                }
            }
            return None;
        }
        acc = next;
        i = i + 1;
    }
    proof {
        assert(digits@.subrange(0, n as int) =~= digits@);
    }
    Some(acc as u8)
}

/// Match a letter prefix against the canonical names and their sharp
/// aliases.
fn letter_index_of(letters: &Vec<char>) -> (r: Option<u8>)
    ensures
        r == spec_letter_index(letters@),
{
    if letters.len() == 1 {
        let c = letters[0];
        if c == 'C' {
            Some(0)
        } else if c == 'D' {
            Some(2)
        } else if c == 'E' {
            Some(4)
        } else if c == 'F' {
            Some(5)
        } else if c == 'G' {
            Some(7)
        } else if c == 'A' {
            Some(9)
        } else if c == 'B' {
            Some(11)
        } else {
            None
        }
    } else if letters.len() == 2 {
        let c0 = letters[0];
        let c1 = letters[1];
        if c1 == '#' || c1 == 'S' {
            if c0 == 'C' {
                Some(1)
            } else if c0 == 'D' {
                Some(3)
            } else if c0 == 'F' {
                Some(6)
            } else if c0 == 'G' {
                Some(8)
            } else if c0 == 'A' {
                Some(10)
            } else {
                None
            }
        } else {
            None
        }
    } else {
        None
    }
}

/// Build the pitch class with the given letter index and octave.
fn note_from_letter(l: u8, octave: u8) -> (r: MidiNote)
    requires
        l < 12,
    ensures
        r == note_of(l as int, octave),
{
    if l == 0 {
        MidiNote::C(octave)
    } else if l == 1 {
        MidiNote::CS(octave)
    } else if l == 2 {
        MidiNote::D(octave)
    } else if l == 3 {
        MidiNote::DS(octave)
    } else if l == 4 {
        MidiNote::E(octave)
    } else if l == 5 {
        MidiNote::F(octave)
    } else if l == 6 {
        MidiNote::FS(octave)
    } else if l == 7 {
        MidiNote::G(octave)
    } else if l == 8 {
        MidiNote::GS(octave)
    } else if l == 9 {
        MidiNote::A(octave)
    } else if l == 10 {
        MidiNote::AS(octave)
    } else {
        MidiNote::B(octave)
    }
}

/// Whether the octave suffix of a name is a non-empty digit run whose value
/// fits in a byte.  [`MidiNote::parse`] demands this of its input; a caller
/// holding an arbitrary name tests it here first and treats a failure as a
/// fatal configuration error.
pub fn octave_suffix_ok(s: &str) -> (b: bool)
    ensures
        b == octave_suffix_valid(s@),
{
    let parts = split_parts(s);
    octave_value_of(&parts.1).is_some()
}

impl MidiNote {
    /// Read a pitch class from a human-readable name such as `"C3"`, `"C#3"`
    /// or `"FS5"`: a letter prefix naming the pitch class and a digit suffix
    /// naming the octave, with surrounding whitespace ignored.  A prefix that
    /// is not a canonical name is reported as
    /// [`MappingError::UnknownMidiKey`].
    pub fn parse(s: &str) -> (r: Result<MidiNote, MappingError>)
        requires
            octave_suffix_valid(s@),
        ensures
            r == spec_parse_result(s@),
    {
        let parts = split_parts(s);
        let octave: u8 = match octave_value_of(&parts.1) {
            Some(o) => o,
            None => {
                proof {
                    assert(false);
                }
                vstd::pervasive::unreached()
            },
        };
        match letter_index_of(&parts.0) {
            Some(l) => Ok(note_from_letter(l, octave)),
            None => Err(MappingError::UnknownMidiKey),
        }
    }

    /// Spell the pitch class as its canonical name, e.g. `"C3"` or `"FS5"`.
    pub fn to_name(&self) -> (r: String)
        ensures
            r@ == spec_name(*self),
    {
        let (letter_str, octave): (&str, u8) = match self {
            MidiNote::C(o) => ("C", *o),
            MidiNote::CS(o) => ("CS", *o),
            MidiNote::D(o) => ("D", *o),
            MidiNote::DS(o) => ("DS", *o),
            MidiNote::E(o) => ("E", *o),
            MidiNote::F(o) => ("F", *o),
            MidiNote::FS(o) => ("FS", *o),
            MidiNote::G(o) => ("G", *o),
            MidiNote::GS(o) => ("GS", *o),
            MidiNote::A(o) => ("A", *o),
            MidiNote::AS(o) => ("AS", *o),
            MidiNote::B(o) => ("B", *o),
        };
        proof {
            reveal_strlit("C");
            reveal_strlit("CS");
            reveal_strlit("D");
            reveal_strlit("DS");
            reveal_strlit("E");
            reveal_strlit("F");
            reveal_strlit("FS");
            reveal_strlit("G");
            reveal_strlit("GS");
            reveal_strlit("A");
            reveal_strlit("AS");
            reveal_strlit("B");
            assert(letter_str@ =~= spec_letter_name(self.letter()));
        }
        let mut out = String::from_str(letter_str);
        if octave >= 100 {
            out.append(digit_str(octave / 100));
        }
        if octave >= 10 {
            out.append(digit_str((octave / 10) % 10));
        }
        out.append(digit_str(octave % 10));
        proof {
            lemma_octave_digits_shape(octave as int);
            assert(out@ =~= spec_name(*self));
        }
        out
    }
}

/// The ASCII digit for a value below ten, as a one-character string.
fn digit_str(d: u8) -> (r: &'static str)
    requires
        d < 10,
    ensures
        r@ == seq![spec_digit_char(d as int)],
{
    proof {
        reveal_strlit("0");
        reveal_strlit("1");
        reveal_strlit("2");
        reveal_strlit("3");
        reveal_strlit("4");
        reveal_strlit("5");
        reveal_strlit("6");
        reveal_strlit("7");
        reveal_strlit("8");
        reveal_strlit("9");
    }
    let r: &'static str = if d == 0 {
        "0"
    } else if d == 1 {
        "1"
    } else if d == 2 {
        "2"
    } else if d == 3 {
        "3"
    } else if d == 4 {
        "4"
    } else if d == 5 {
        "5"
    } else if d == 6 {
        "6"
    } else if d == 7 {
        "7"
    } else if d == 8 {
        "8"
    } else {
        "9"
    };
    proof {
        assert(r@ =~= seq![spec_digit_char(d as int)]);
    }
    r
}

/// The decimal digits of a byte-sized value: one digit under 10, two under
/// 100, three otherwise.
proof fn lemma_octave_digits_shape(n: int)
    requires
        0 <= n <= 255,
    ensures
        n < 10 ==> spec_octave_digits(n) == seq![spec_digit_char(n)],
        10 <= n < 100 ==> spec_octave_digits(n) == seq![
            spec_digit_char(n / 10),
            spec_digit_char(n % 10),
        ],
        100 <= n ==> spec_octave_digits(n) == seq![
            spec_digit_char(n / 100),
            spec_digit_char((n / 10) % 10),
            spec_digit_char(n % 10),
        ],
{
    if n < 10 {
    } else if n < 100 {
        assert(spec_octave_digits(n / 10).push(spec_digit_char(n % 10)) =~= seq![
            spec_digit_char(n / 10),
            spec_digit_char(n % 10),
        ]);
    } else {
        vstd::arithmetic::div_mod::lemma_div_denominator(n, 10, 10);
        assert(n / 10 / 10 == n / 100);
        assert(spec_octave_digits(n / 10) == spec_octave_digits(n / 10 / 10).push(
            spec_digit_char((n / 10) % 10),
        ));
        assert(spec_octave_digits(n / 10 / 10).push(spec_digit_char((n / 10) % 10)).push(
            spec_digit_char(n % 10),
        ) =~= seq![spec_digit_char(n / 100), spec_digit_char((n / 10) % 10), spec_digit_char(n % 10)]);
    }
}

/// Encoding an in-range pitch class and decoding the result gives the pitch
/// class back.
pub proof fn lemma_decode_after_encode(p: MidiNote)
    requires
        p.in_range(),
    ensures
        spec_decode(p.number() as u8) == p,
{
    let n = p.number();
    vstd::arithmetic::div_mod::lemma_fundamental_div_mod_converse(
        n,
        12,
        p.octave() as int,
        p.letter(),
    );
}

} // verus!
