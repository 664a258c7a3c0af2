//! Pitch resolution: mapping a natural-note name to its distance in
//! semitones from the reference pitch A4.

use vstd::prelude::*;

verus! {

/// Why a note name was rejected.
#[derive(Clone, Copy, Debug, PartialEq, Eq, Structural)]
pub enum InvalidNoteError {
    /// The name is not exactly two characters long.
    WrongLength,
    /// The second character is not a decimal digit.
    NonDigitOctave,
    /// The first character is not one of the natural-note letters `A`..`G`.
    UnsupportedLetter,
}

/// The seven natural-note letters (uppercase, no sharps or flats).
pub open spec fn is_note_letter(c: char) -> bool {
    c == 'A' || c == 'B' || c == 'C' || c == 'D' || c == 'E' || c == 'F' || c == 'G'
}

/// Semitone offset of a natural-note letter from `A` within the same octave
/// number. The offsets follow the chromatic scale, not letter order: `C` lies
/// below `A` because `C4` is lower in pitch than `A4`.
pub open spec fn letter_semitones(c: char) -> int
    recommends
        is_note_letter(c),
{
    if c == 'A' {
        0
    } else if c == 'B' {
        2
    } else if c == 'C' {
        -9
    } else if c == 'D' {
        -7
    } else if c == 'E' {
        -5
    } else if c == 'F' {
        -4
    } else {
        -2
    }
}

/// A decimal digit character.
pub open spec fn is_octave_digit(c: char) -> bool {
    '0' <= c && c <= '9'
}

/// Numeric value of an octave digit character.
pub open spec fn octave_value(c: char) -> int
    recommends
        is_octave_digit(c),
{
    c as int - '0' as int
}

/// A valid note name: a natural-note letter followed by one octave digit,
/// nothing more.
pub open spec fn is_valid_note(s: Seq<char>) -> bool {
    s.len() == 2 && is_note_letter(s[0]) && is_octave_digit(s[1])
}

/// Distance in semitones of a valid note name from the reference pitch A4:
/// the letter's chromatic offset plus twelve semitones per octave away from
/// octave 4.
pub open spec fn note_semitones(s: Seq<char>) -> int
    recommends
        is_valid_note(s),
{
    letter_semitones(s[0]) + (octave_value(s[1]) - 4) * 12
}

/// Resolves a note name to its distance in semitones from A4.
///
/// The frequency in Hz follows as `440 * 2^(n / 12)` for the returned `n`;
/// that final step is floating-point and is left to the caller.
///
/// A name is accepted exactly when it is one natural-note letter `A`..`G`
/// followed by one decimal digit; each malformed shape is reported as its own
/// error.
pub fn semitones_from_a4(name: &str) -> (r: Result<i32, InvalidNoteError>)
    ensures
        r is Ok <==> is_valid_note(name@),
        is_valid_note(name@) ==> r == Ok::<i32, InvalidNoteError>(note_semitones(name@) as i32),
        name@.len() != 2 ==> r == Err::<i32, InvalidNoteError>(InvalidNoteError::WrongLength),
        name@.len() == 2 && !is_octave_digit(name@[1]) ==> r == Err::<i32, InvalidNoteError>(
            InvalidNoteError::NonDigitOctave,
        ),
        name@.len() == 2 && is_octave_digit(name@[1]) && !is_note_letter(name@[0]) ==> r
            == Err::<i32, InvalidNoteError>(InvalidNoteError::UnsupportedLetter),
{
    if name.unicode_len() != 2 {
        return Err(InvalidNoteError::WrongLength);
    }
    let letter = name.get_char(0);
    let octave_char = name.get_char(1);
    if !('0' <= octave_char && octave_char <= '9') {
        return Err(InvalidNoteError::NonDigitOctave);
    }
    let octave: i32 = octave_char as i32 - 48;
    let offset: i32 = match letter {
        'A' => 0,
        'B' => 2,
        'C' => -9,
        'D' => -7,
        'E' => -5,
        'F' => -4,
        'G' => -2,
        _ => {
            return Err(InvalidNoteError::UnsupportedLetter);
        },
    };
    Ok(offset + (octave - 4) * 12)
}

/// Octave invariance: raising the octave digit by one raises the pitch by
/// exactly twelve semitones, one full octave — so the frequency
/// `440 * 2^(n / 12)` doubles.
pub proof fn lemma_octave_invariance(letter: char, low: char, high: char)
    requires
        is_note_letter(letter),
        is_octave_digit(low),
        is_octave_digit(high),
        octave_value(high) == octave_value(low) + 1,
    ensures
        note_semitones(seq![letter, high]) == note_semitones(seq![letter, low]) + 12,
{
}

} // verus!
