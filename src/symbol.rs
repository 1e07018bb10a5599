//! The symbol alphabet and its timing constants.
use vstd::prelude::*;

verus! {

/// Length in milliseconds of one unit of Morse timing.
pub const STANDARD_DURATION: u64 = 100;

/// Length in milliseconds of a dah-like unit: three standard units.
pub const MEDIUM_DURATION: u64 = 3 * STANDARD_DURATION;

/// Length in milliseconds of the pause between words: seven standard units.
pub const WORD_GAP_DURATION: u64 = 7 * STANDARD_DURATION;

/// The classified meaning of one character of a message.
#[derive(Clone, Copy, Debug, PartialEq, Eq, Structural)]
pub enum Symbol {
    /// `.`: a short pulse.
    Dit,
    /// `_`: a long pulse.
    Dah,
    /// `+`: a pause between letters.
    LetterGap,
    /// `*`: a pause between words.
    WordGap,
    /// Any other character, carried as it was received.
    Unknown(char),
}

/// The symbol that a character stands for.
pub open spec fn symbol_of(c: char) -> Symbol {
    if c == '.' {
        Symbol::Dit
    } else if c == '_' {
        Symbol::Dah
    } else if c == '+' {
        Symbol::LetterGap
    } else if c == '*' {
        Symbol::WordGap
    } else {
        Symbol::Unknown(c)
    }
}

/// Whether a character belongs to the alphabet `. _ + *`.
pub open spec fn in_alphabet(c: char) -> bool {
    !(symbol_of(c) is Unknown)
}

/// Whether every character of a message belongs to the alphabet.
pub open spec fn all_in_alphabet(m: Seq<char>) -> bool {
    forall|i: int| 0 <= i < m.len() ==> in_alphabet(#[trigger] m[i])
}

/// The time in milliseconds that a recognised symbol occupies.
pub open spec fn symbol_cost(s: Symbol) -> nat {
    match s {
        Symbol::Dit => (2 * STANDARD_DURATION) as nat,
        Symbol::Dah => (MEDIUM_DURATION + STANDARD_DURATION) as nat,
        Symbol::LetterGap => MEDIUM_DURATION as nat,
        Symbol::WordGap => (7 * STANDARD_DURATION) as nat,
        Symbol::Unknown(_) => 0,
    }
}

/// The sum of the costs of the symbols of a message, taken left to right.
pub open spec fn message_cost(m: Seq<char>) -> nat
    decreases m.len(),
{
    if m.len() == 0 {
        0
    } else {
        symbol_cost(symbol_of(m[0])) + message_cost(m.drop_first())
    }
}

/// The byte that stands for a character in an error reply: the low eight
/// bits of its code point.
pub open spec fn raw_byte(c: char) -> u8 {
    (c as u32) as u8
}

/// Classifies one character.
pub fn classify(c: char) -> (s: Symbol)
    ensures
        s == symbol_of(c),
{
    match c {
        '.' => Symbol::Dit,
        '_' => Symbol::Dah,
        '+' => Symbol::LetterGap,
        '*' => Symbol::WordGap,
        _ => Symbol::Unknown(c),
    }
}

/// The byte that an error reply carries for a character.
pub fn byte_of(c: char) -> (r: u8)
    ensures
        r == raw_byte(c),
{
    #[verifier::truncate]
    (c as u32) as u8
}

} // verus!
