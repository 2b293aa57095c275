use vstd::prelude::*;

use crate::geometry::{Color, Point};

verus! {

/// Semitone offsets, within an octave, of the five sharp keys: C#, D#, F#, G#, A#.
pub open spec fn is_accidental_semitone(semitone: int) -> bool {
    semitone == 1 || semitone == 3 || semitone == 6 || semitone == 8 || semitone == 10
}

/// Whether the semitone offset `semitone` is a sharp (black) key.
pub fn is_accidental(semitone: usize) -> (r: bool)
    ensures
        r == is_accidental_semitone(semitone as int),
{
    semitone == 1 || semitone == 3 || semitone == 6 || semitone == 8 || semitone == 10
}

/// Returned by `Note::set_pressed` when the key is already in the requested state.
#[derive(Clone, Copy, Debug, PartialEq, Eq, Structural)]
pub struct AlreadyInStateError {
    pub state: bool,
}

/// What `set_pressed(requested)` returns on a key whose state is `current`.
pub open spec fn press_outcome(current: bool, requested: bool) -> Result<bool, AlreadyInStateError> {
    if current == requested {
        Err(AlreadyInStateError { state: requested })
    } else {
        Ok(requested)
    }
}

/// Whether a key is held down. Outside this module it can only be read,
/// and changed only through `Note::set_pressed`.
#[derive(Clone, Copy, Debug, PartialEq, Eq)]
pub struct KeyState {
    down: bool,
}

impl KeyState {
    pub closed spec fn is_down(self) -> bool {
        self.down
    }
}

/// State of a key, starting from `state`, after `set_pressed` has been
/// called with each of `requests` in turn.
pub open spec fn state_after(state: bool, requests: Seq<bool>) -> bool
    decreases requests.len(),
{
    if requests.len() == 0 {
        state
    } else {
        state_after(requests[0], requests.subrange(1, requests.len() as int))
    }
}

/// A key is a strict edge detector: a request for the state it is in fails,
/// a request for the other state succeeds with that state. So from released,
/// the requests released, pressed, pressed, released give an error,
/// `Ok(true)`, an error and `Ok(false)`.
pub proof fn lemma_strict_edge_detector(current: bool, requested: bool)
    ensures
        press_outcome(current, requested) is Err <==> current == requested,
        current != requested ==> press_outcome(current, requested) == Ok::<
            bool,
            AlreadyInStateError,
        >(requested),
        state_after(current, seq![requested]) == requested,
        press_outcome(false, false) is Err,
        press_outcome(state_after(false, seq![false]), true) == Ok::<bool, AlreadyInStateError>(
            true,
        ),
        press_outcome(state_after(false, seq![false, true]), true) is Err,
        press_outcome(state_after(false, seq![false, true, true]), false) == Ok::<
            bool,
            AlreadyInStateError,
        >(false),
        state_after(false, seq![false, true, true, false]) == false,
{
    reveal_with_fuel(state_after, 5);
    assert(seq![requested].subrange(1, 1) =~= Seq::<bool>::empty());
    assert(seq![false].subrange(1, 1) =~= Seq::<bool>::empty());
    assert(seq![false, true].subrange(1, 2) =~= seq![true]);
    assert(seq![true].subrange(1, 1) =~= Seq::<bool>::empty());
    assert(seq![false, true, true].subrange(1, 3) =~= seq![true, true]);
    assert(seq![true, true].subrange(1, 2) =~= seq![true]);
    assert(seq![false, true, true, false].subrange(1, 4) =~= seq![true, true, false]);
    assert(seq![true, true, false].subrange(1, 3) =~= seq![true, false]);
    assert(seq![true, false].subrange(1, 2) =~= seq![false]);
}

/// Requests for the state a key is already in never change it: each of
/// them fails, the key keeps its state, and a request for the other state
/// afterwards still succeeds.
pub proof fn lemma_redundant_requests_keep_state(state: bool, requests: Seq<bool>)
    requires
        forall|i: int| 0 <= i < requests.len() ==> requests[i] == state,
    ensures
        state_after(state, requests) == state,
        forall|i: int|
            0 <= i < requests.len() ==> #[trigger] press_outcome(
                state_after(state, requests.take(i)),
                requests[i],
            ) is Err,
        press_outcome(state_after(state, requests), !state) == Ok::<bool, AlreadyInStateError>(
            !state,
        ),
{
    lemma_state_after_constant(state, requests);
    assert forall|i: int| 0 <= i < requests.len() implies #[trigger] press_outcome(
        state_after(state, requests.take(i)),
        requests[i],
    ) is Err by {
        lemma_state_after_constant(state, requests.take(i));
    }
}

proof fn lemma_state_after_constant(state: bool, requests: Seq<bool>)
    requires
        forall|i: int| 0 <= i < requests.len() ==> requests[i] == state,
    ensures
        state_after(state, requests) == state,
    decreases requests.len(),
{
    if requests.len() > 0 {
        lemma_state_after_constant(state, requests.subrange(1, requests.len() as int));
    }
}

/// One key of the keyboard.
pub struct Note {
    /// Chromatic index; `code / 12 - 1` is the octave number.
    pub code: u8,
    /// Where the key is sampled in the live image.
    pub location: Point,
    /// The key's color while it is released.
    pub default_color: Color,
    pub is_accidental: bool,
    pub pressed: KeyState,
}

/// The two-character name of each semitone; naturals carry a trailing space.
pub open spec fn semitone_name(semitone: int) -> Seq<char> {
    if semitone == 0 {
        seq!['C', ' ']
    } else if semitone == 1 {
        seq!['C', '#']
    } else if semitone == 2 {
        seq!['D', ' ']
    } else if semitone == 3 {
        seq!['D', '#']
    } else if semitone == 4 {
        seq!['E', ' ']
    } else if semitone == 5 {
        seq!['F', ' ']
    } else if semitone == 6 {
        seq!['F', '#']
    } else if semitone == 7 {
        seq!['G', ' ']
    } else if semitone == 8 {
        seq!['G', '#']
    } else if semitone == 9 {
        seq!['A', ' ']
    } else if semitone == 10 {
        seq!['A', '#']
    } else {
        seq!['B', ' ']
    }
}

/// The character of a decimal digit.
pub open spec fn digit_char(d: int) -> char {
    if d == 0 {
        '0'
    } else if d == 1 {
        '1'
    } else if d == 2 {
        '2'
    } else if d == 3 {
        '3'
    } else if d == 4 {
        '4'
    } else if d == 5 {
        '5'
    } else if d == 6 {
        '6'
    } else if d == 7 {
        '7'
    } else if d == 8 {
        '8'
    } else {
        '9'
    }
}

/// Decimal digits of `n`, without leading zeros.
pub open spec fn digits(n: nat) -> Seq<char>
    decreases n,
{
    if n < 10 {
        seq![digit_char(n as int)]
    } else {
        digits(n / 10).push(digit_char((n % 10) as int))
    }
}

/// Decimal text of `n`, with a leading `-` when negative.
pub open spec fn decimal(n: int) -> Seq<char> {
    if n < 0 {
        seq!['-'] + digits((-n) as nat)
    } else {
        digits(n as nat)
    }
}

/// The display name of a key with the given code: its two-character name,
/// a space, and its octave number.
pub open spec fn display_name(code: int) -> Seq<char> {
    semitone_name(code % 12) + seq![' '] + decimal(code / 12 - 1)
}

fn digit_str(d: u8) -> (s: &'static str)
    requires
        d < 10,
    ensures
        s@ == seq![digit_char(d as int)],
{
    proof {
        reveal_strlit("0");
        reveal_strlit("1");
        reveal_strlit("2");
        reveal_strlit("3");
        reveal_strlit("4");
        reveal_strlit("5");
        reveal_strlit("6");
        reveal_strlit("7");
        reveal_strlit("8");
        reveal_strlit("9");
    }
    match d {
        0 => "0",
        1 => "1",
        2 => "2",
        3 => "3",
        4 => "4",
        5 => "5",
        6 => "6",
        7 => "7",
        8 => "8",
        _ => "9",
    }
}

fn push_digits(s: &mut String, n: u8)
    ensures
        final(s)@ == old(s)@ + digits(n as nat),
    decreases n,
{
    if n >= 10 {
        push_digits(s, n / 10);
    }
    s.append(digit_str(n % 10));
    proof {
        if n < 10 {
            assert(n % 10 == n);
        }
    }
    assert(final(s)@ =~= old(s)@ + digits(n as nat));
}

fn semitone_str(semitone: u8) -> (s: &'static str)
    requires
        semitone < 12,
    ensures
        s@ == semitone_name(semitone as int),
{
    proof {
        reveal_strlit("C ");
        reveal_strlit("C#");
        reveal_strlit("D ");
        reveal_strlit("D#");
        reveal_strlit("E ");
        reveal_strlit("F ");
        reveal_strlit("F#");
        reveal_strlit("G ");
        reveal_strlit("G#");
        reveal_strlit("A ");
        reveal_strlit("A#");
        reveal_strlit("B ");
    }
    match semitone {
        0 => "C ",
        1 => "C#",
        2 => "D ",
        3 => "D#",
        4 => "E ",
        5 => "F ",
        6 => "F#",
        7 => "G ",
        8 => "G#",
        9 => "A ",
        10 => "A#",
        _ => "B ",
    }
}

impl Note {
    /// Whether the key is currently held down.
    pub open spec fn pressed_state(&self) -> bool {
        self.pressed.is_down()
    }

    /// A released key.
    pub fn new(code: u8, location: Point, default_color: Color, is_accidental: bool) -> (n: Note)
        ensures
            n.code == code,
            n.location == location,
            n.default_color == default_color,
            n.is_accidental == is_accidental,
            !n.pressed_state(),
    {
        Note { code, location, default_color, is_accidental, pressed: KeyState { down: false } }
    }

    pub fn is_pressed(&self) -> (r: bool)
        ensures
            r == self.pressed_state(),
    {
        self.pressed.down
    }

    /// Records a press (`true`) or a release (`false`). Only a change of
    /// state is accepted: asking for the state the key is already in is
    /// an error and leaves the key as it was.
    pub fn set_pressed(&mut self, pressed: bool) -> (r: Result<bool, AlreadyInStateError>)
        ensures
            r == press_outcome(old(self).pressed_state(), pressed),
            final(self).pressed_state() == pressed,
            final(self).code == old(self).code,
            final(self).location == old(self).location,
            final(self).default_color == old(self).default_color,
            final(self).is_accidental == old(self).is_accidental,
    {
        if self.pressed.down == pressed {
            return Err(AlreadyInStateError { state: pressed });
        }
        self.pressed = KeyState { down: pressed };
        Ok(pressed)
    }

    /// Human-readable name: the two-character semitone name, a space, and
    /// the octave number `code / 12 - 1` (so `21` reads `"A  0"`).
    pub fn to_string(&self) -> (s: String)
        ensures
            s@ == display_name(self.code as int),
    {
        let mut s = String::from_str(semitone_str(self.code % 12));
        s.append(" ");
        let octave: i32 = (self.code / 12) as i32 - 1;
        if octave < 0 {
            s.append("-");
            push_digits(&mut s, (-octave) as u8);
        } else {
            push_digits(&mut s, octave as u8);
        }
        proof {
            reveal_strlit(" ");
            reveal_strlit("-");
        }
        assert(s@ =~= display_name(self.code as int));
        s
    }
}

} // verus!
