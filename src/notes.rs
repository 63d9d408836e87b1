//! Naming of semitones: semitone 0 is A4, names run
//! `A, A#, B, C, C#, D, D#, E, F, F#, G, G#` and the octave is
//! `floor(note / 12) + 4`.
use vstd::prelude::*;
use vstd::string::StringExecFns;

verus! {

/// Name of the semitone `v`, counted from A.
pub open spec fn note_name(v: int) -> Seq<char> {
    let m = v % 12;
    if m == 0 {
        seq!['A']
    } else if m == 1 {
        seq!['A', '#']
    } else if m == 2 {
        seq!['B']
    } else if m == 3 {
        seq!['C']
    } else if m == 4 {
        seq!['C', '#']
    } else if m == 5 {
        seq!['D']
    } else if m == 6 {
        seq!['D', '#']
    } else if m == 7 {
        seq!['E']
    } else if m == 8 {
        seq!['F']
    } else if m == 9 {
        seq!['F', '#']
    } else if m == 10 {
        seq!['G']
    } else {
        seq!['G', '#']
    }
}

/// Octave of the semitone `v`: `floor(v / 12) + 4`.
pub open spec fn octave_of(v: int) -> int {
    v / 12 + 4
}

/// The decimal digit `d` as a character.
pub open spec fn digit_char(d: nat) -> char {
    seq!['0', '1', '2', '3', '4', '5', '6', '7', '8', '9'][d as int]
}

/// Decimal notation of `n`, without leading zeros.
pub open spec fn decimal(n: nat) -> Seq<char>
    decreases n,
{
    if n < 10 {
        seq![digit_char(n)]
    } else {
        decimal(n / 10).push(digit_char(n % 10))
    }
}

/// Decimal notation of `i`, with a leading `-` when negative.
pub open spec fn signed_decimal(i: int) -> Seq<char> {
    if i < 0 {
        seq!['-'] + decimal((-i) as nat)
    } else {
        decimal(i as nat)
    }
}

/// How a note is shown: its name followed by its octave, as `A4` or `C#-1`.
pub open spec fn note_text(v: int) -> Seq<char> {
    note_name(v) + signed_decimal(octave_of(v))
}

fn digit_str(d: u32) -> (r: &'static str)
    requires
        d < 10,
    ensures
        r@ == seq![digit_char(d as nat)],
{
    proof {
        reveal_strlit("0");
        reveal_strlit("1");
        reveal_strlit("2");
        reveal_strlit("3");
        reveal_strlit("4");
        reveal_strlit("5");
        reveal_strlit("6");
        reveal_strlit("7");
        reveal_strlit("8");
        reveal_strlit("9");
    }
    match d {
        0 => "0",
        1 => "1",
        2 => "2",
        3 => "3",
        4 => "4",
        5 => "5",
        6 => "6",
        7 => "7",
        8 => "8",
        _ => "9",
    }
}

fn push_decimal(s: &mut String, n: u32)
    ensures
        final(s)@ == old(s)@ + decimal(n as nat),
    decreases n,
{
    if n >= 10 {
        push_decimal(s, n / 10);
    }
    s.append(digit_str(n % 10));
    assert(s@ =~= old(s)@ + decimal(n as nat));
}

/// A semitone relative to A4.
#[derive(Clone, Copy, PartialEq, Eq, Structural)]
pub struct Note(i16);

impl Note {
    pub closed spec fn view(&self) -> int {
        self.0 as int
    }

    /// The note `value` semitones above A4 (below, when negative).
    pub fn from_semitone(value: i16) -> (r: Note)
        ensures
            r.view() == value,
    {
        Note(value)
    }

    pub fn value(&self) -> (r: i16)
        ensures
            r == self.view(),
    {
        self.0
    }

    /// `v mod 12` and `floor(v / 12)` by way of a non-negative shift.
    fn split(&self) -> (r: (u32, i32))
        ensures
            r.0 == self.view() % 12,
            r.1 == self.view() / 12,
    {
        let shifted = (self.0 as i32 + 32772) as u32;
        assert((self.0 + 32772) / 12 == self.0 / 12 + 2731);
        assert((self.0 + 32772) % 12 == self.0 % 12);
        (shifted % 12, (shifted / 12) as i32 - 2731)
    }

    /// The name of the note within its octave.
    pub fn get_name(&self) -> (r: &'static str)
        ensures
            r@ == note_name(self.view()),
    {
        proof {
            reveal_strlit("A");
            reveal_strlit("A#");
            reveal_strlit("B");
            reveal_strlit("C");
            reveal_strlit("C#");
            reveal_strlit("D");
            reveal_strlit("D#");
            reveal_strlit("E");
            reveal_strlit("F");
            reveal_strlit("F#");
            reveal_strlit("G");
            reveal_strlit("G#");
        }
        let (m, _) = self.split();
        match m {
            0 => "A",
            1 => "A#",
            2 => "B",
            3 => "C",
            4 => "C#",
            5 => "D",
            6 => "D#",
            7 => "E",
            8 => "F",
            9 => "F#",
            10 => "G",
            _ => "G#",
        }
    }

    /// The octave of the note; A4 and the eleven semitones above it are in
    /// octave 4.
    pub fn get_octave(&self) -> (r: i8)
        requires
            -128 <= octave_of(self.view()) <= 127,
        ensures
            r == octave_of(self.view()),
    {
        let (_, q) = self.split();
        (q + 4) as i8
    }

    /// The note shown as its name and octave, as `A4`.
    pub fn to_text(&self) -> (r: String)
        ensures
            r@ == note_text(self.view()),
    {
        let (_, q) = self.split();
        let octave = q + 4;
        let mut s = String::from_str(self.get_name());
        if octave < 0 {
            s.append("-");
            push_decimal(&mut s, (-octave) as u32);
            proof {
                reveal_strlit("-");
            }
        } else {
            push_decimal(&mut s, octave as u32);
        }
        assert(s@ =~= note_text(self.view()));
        s
    }
}

} // verus!
