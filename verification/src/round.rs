//! One round of the drill as a state machine: key presses grow or shrink
//! the guess, score mistakes against the question's letters, and decide
//! how the round ends.

use vstd::prelude::*;
use crate::cipher::is_lower_word;
use crate::tally::Tally;
use crate::tally::LETTER_COUNT;

verus! {

/// How a round ends.
#[derive(PartialEq, Eq, Structural, Clone, Copy, Debug)]
pub enum QuestionResult {
    Quit,
    Skip,
    Correct,
}

/// A key press, as the state machine sees it. `Char` carries an ASCII
/// byte; any other character key counts as `Other` and is ignored.
#[derive(PartialEq, Eq, Structural, Clone, Copy, Debug)]
pub enum Key {
    Char(u8),
    Backspace,
    Enter,
    Esc,
    Tab,
    Other,
}

/// An ASCII letter of either case: only these extend the guess.
pub open spec fn is_alpha(c: u8) -> bool {
    (0x41 <= c <= 0x5a) || (0x61 <= c <= 0x7a)
}

/// The tally slot a mistake at position `i` is charged to: the slot of
/// the *question's* letter there, never the cipher letter's.
pub open spec fn mistake_index(question: Seq<u8>, i: int) -> int {
    question[i] - 0x61
}

/// Whether pressing `c` with the given guess scores a mistake: the key
/// is a letter, lands inside the answer, and differs from the expected
/// letter at that position.
pub open spec fn press_records_mistake(c: u8, guess: Seq<u8>, correct: Seq<u8>) -> bool {
    is_alpha(c) && guess.len() < correct.len() && c != correct[guess.len() as int]
}

/// The guess after pressing `c`: letters are appended, everything else
/// leaves the guess alone.
pub open spec fn guess_after_press(c: u8, guess: Seq<u8>) -> Seq<u8> {
    if is_alpha(c) {
        guess.push(c)
    } else {
        guess
    }
}

/// The tally after pressing `c`: one more mistake against the question's
/// letter at the typed position, or unchanged when nothing is scored.
pub open spec fn tally_after_press(
    c: u8,
    guess: Seq<u8>,
    correct: Seq<u8>,
    question: Seq<u8>,
    t: Seq<u16>,
) -> Seq<u16> {
    if press_records_mistake(c, guess, correct) {
        let idx = mistake_index(question, guess.len() as int);
        t.update(idx, (t[idx] + 1) as u16)
    } else {
        t
    }
}

/// A mistake is charged to the question letter's slot and to no other:
/// that slot alone rises, by exactly one.
pub proof fn lemma_mistake_attribution(
    c: u8,
    guess: Seq<u8>,
    correct: Seq<u8>,
    question: Seq<u8>,
    t: Seq<u16>,
)
    requires
        is_lower_word(question),
        question.len() == correct.len(),
        t.len() == LETTER_COUNT,
        press_records_mistake(c, guess, correct),
        t[mistake_index(question, guess.len() as int)] < u16::MAX,
    ensures
        0 <= mistake_index(question, guess.len() as int) < LETTER_COUNT,
        tally_after_press(c, guess, correct, question, t)[mistake_index(
            question,
            guess.len() as int,
        )] == t[mistake_index(question, guess.len() as int)] + 1,
        forall|j: int|
            0 <= j < LETTER_COUNT && j != mistake_index(question, guess.len() as int)
                ==> tally_after_press(c, guess, correct, question, t)[j] == t[j],
{
    assert(crate::cipher::is_lower(question[guess.len() as int]));
}

/// The precondition a letter press puts on the tally: where a mistake
/// would be scored, its slot must still have room to count it.
pub open spec fn press_fits_tally(
    c: u8,
    guess: Seq<u8>,
    correct: Seq<u8>,
    question: Seq<u8>,
    t: Seq<u16>,
) -> bool {
    press_records_mistake(c, guess, correct)
        ==> t[mistake_index(question, guess.len() as int)] < u16::MAX
}

/// One character key while a round is active. A letter is appended to
/// the guess; a letter that lands inside the answer and differs from the
/// expected letter there charges one mistake to the question's letter;
/// anything past the answer's length is shown but never scored; a
/// non-letter changes nothing.
pub fn char_press(
    c: u8,
    guess: &mut Vec<u8>,
    correct: &[u8],
    question: &[u8],
    mistakes: &mut Tally,
)
    requires
        old(mistakes).wf(),
        question@.len() == correct@.len(),
        is_lower_word(question@),
        press_fits_tally(c, old(guess)@, correct@, question@, old(mistakes)@),
    ensures
        final(mistakes).wf(),
        final(guess)@ == guess_after_press(c, old(guess)@),
        final(mistakes)@ == tally_after_press(c, old(guess)@, correct@, question@, old(mistakes)@),
{
    if !(c >= 0x41 && c <= 0x5a || c >= 0x61 && c <= 0x7a) {
        return;
    }

    guess.push(c);

    let last = guess.len() - 1;
    if last >= correct.len() {
        return;
    }

    if c != correct[last] {
        assert(crate::cipher::is_lower(question@[last as int]));
        let q = question[last];
        mistakes.record((q - 0x61) as usize);
    }
}

/// Whether the guess equals the expected answer exactly. A round checks
/// this after every redraw, before waiting for the next key.
pub fn is_solved(guess: &[u8], correct: &[u8]) -> (r: bool)
    ensures
        r == (guess@ == correct@),
{
    if guess.len() != correct.len() {
        assert(guess@ != correct@);
        return false;
    }
    let mut i: usize = 0;
    while i < guess.len()
        invariant
            guess@.len() == correct@.len(),
            i <= guess@.len(),
            forall|j: int| 0 <= j < i ==> guess@[j] == correct@[j],
        decreases guess@.len() - i,
    {
        if guess[i] != correct[i] {
            assert(guess@ != correct@);
            return false;
        }
        i = i + 1;
    }
    assert(guess@ =~= correct@);
    true
}

/// One step of the round's state machine: the effect of one key event on
/// the guess and the tally, and whether it ends the round. Escape ends
/// the whole session, Enter abandons the round, Tab force-completes it;
/// all three leave guess and tally alone. A character key feeds
/// `char_press`; Backspace drops the last typed character, doing nothing
/// on an empty guess; any other key is ignored.
pub fn step(
    key: Key,
    guess: &mut Vec<u8>,
    correct: &[u8],
    question: &[u8],
    mistakes: &mut Tally,
) -> (r: Option<QuestionResult>)
    requires
        old(mistakes).wf(),
        question@.len() == correct@.len(),
        is_lower_word(question@),
        key matches Key::Char(c)
            ==> press_fits_tally(c, old(guess)@, correct@, question@, old(mistakes)@),
    ensures
        final(mistakes).wf(),
        key == Key::Esc ==> r == Some(QuestionResult::Quit) && final(guess)@ == old(guess)@
            && final(mistakes)@ == old(mistakes)@,
        key == Key::Enter ==> r == Some(QuestionResult::Skip) && final(guess)@ == old(guess)@
            && final(mistakes)@ == old(mistakes)@,
        key == Key::Tab ==> r == Some(QuestionResult::Correct) && final(guess)@ == old(guess)@
            && final(mistakes)@ == old(mistakes)@,
        key == Key::Other ==> r == None::<QuestionResult> && final(guess)@ == old(guess)@
            && final(mistakes)@ == old(mistakes)@,
        key == Key::Backspace ==> r == None::<QuestionResult> && final(mistakes)@ == old(
            mistakes,
        )@ && final(guess)@ == (if old(guess)@.len() == 0 {
            old(guess)@
        } else {
            old(guess)@.drop_last()
        }),
        key matches Key::Char(c) ==> r == None::<QuestionResult> && final(guess)@
            == guess_after_press(c, old(guess)@) && final(mistakes)@ == tally_after_press(
            c,
            old(guess)@,
            correct@,
            question@,
            old(mistakes)@,
        ),
{
    match key {
        Key::Esc => Some(QuestionResult::Quit),
        Key::Enter => Some(QuestionResult::Skip),
        Key::Tab => Some(QuestionResult::Correct),
        Key::Char(c) => {
            char_press(c, guess, correct, question, mistakes);
            None
        },
        Key::Backspace => {
            if guess.len() > 0 {
                guess.pop();
                assert(guess@ =~= old(guess)@.drop_last());
            }
            None
        },
        Key::Other => None,
    }
}

} // verus!
