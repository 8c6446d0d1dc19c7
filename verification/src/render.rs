//! The three-line diff of a partial guess against the expected answer:
//! a top line of overshoot markers, a middle line with the prompt and the
//! colorized guess, and a bottom line of undershoot markers.

use vstd::prelude::*;

verus! {

/// The marker for a numeric difference between a typed and an expected
/// letter: the digit itself for 1 through 9, `+` for 10 and more.
pub open spec fn num_to_char_spec(num: u8) -> char {
    if num > 9 {
        '+'
    } else {
        ((num + 0x30) as u8) as char
    }
}

/// The marker character for a letter difference: a digit for 1 through
/// 9, `+` for anything larger.
pub fn num_to_char(num: u8) -> (r: char)
    ensures
        r == num_to_char_spec(num),
{
    if num > 9 {
        '+'
    } else {
        (num + 0x30) as char
    }
}

/// The color escape that starts a matched (green) guess character.
pub open spec fn green_code() -> Seq<char> {
    seq!['\x1b', '[', '0', ';', '3', '2', 'm']
}

/// The color escape that starts a mismatched (red) guess character.
pub open spec fn red_code() -> Seq<char> {
    seq!['\x1b', '[', '0', ';', '3', '1', 'm']
}

/// The escape that restores the default color at the line's end.
pub open spec fn reset_code() -> Seq<char> {
    seq!['\x1b', '[', '0', 'm']
}

/// The color a guess character is drawn in: green on a match, red on a
/// mismatch or past the answer's end.
pub open spec fn color_code(matched: bool) -> Seq<char> {
    if matched {
        green_code()
    } else {
        red_code()
    }
}

/// `n` spaces.
pub open spec fn pad_spec(n: int) -> Seq<char>
    recommends
        n >= 0,
{
    Seq::new(n as nat, |i: int| ' ')
}

/// The prompt of the middle line: the question, then an arrow.
pub open spec fn prompt_spec(q: Seq<u8>) -> Seq<char> {
    q.map_values(|c: u8| c as char) + seq![' ', '-', '>', ' ']
}

/// The top-line marker at one column: the overshoot, where the typed
/// letter exceeds the expected one; a space otherwise.
pub open spec fn over_marker(g: u8, a: u8) -> char {
    if g > a {
        num_to_char_spec((g - a) as u8)
    } else {
        ' '
    }
}

/// The bottom-line marker at one column: the undershoot, where the typed
/// letter falls short of the expected one; a space otherwise.
pub open spec fn under_marker(g: u8, a: u8) -> char {
    if g < a {
        num_to_char_spec((a - g) as u8)
    } else {
        ' '
    }
}

/// The first `n` typed characters carry markers only as far as the
/// answer reaches: characters past its end are never scored.
pub open spec fn marker_count(a: Seq<u8>, n: int) -> int {
    if n <= a.len() {
        n
    } else {
        a.len() as int
    }
}

/// The overshoot markers for the first `n` typed characters.
pub open spec fn over_prefix(a: Seq<u8>, g: Seq<u8>, n: int) -> Seq<char>
    recommends
        0 <= n <= g.len(),
{
    Seq::new(marker_count(a, n) as nat, |j: int| over_marker(g[j], a[j]))
}

/// The undershoot markers for the first `n` typed characters.
pub open spec fn under_prefix(a: Seq<u8>, g: Seq<u8>, n: int) -> Seq<char>
    recommends
        0 <= n <= g.len(),
{
    Seq::new(marker_count(a, n) as nat, |j: int| under_marker(g[j], a[j]))
}

/// Whether the typed character at position `j` matches the expected one.
pub open spec fn guess_matches_at(a: Seq<u8>, g: Seq<u8>, j: int) -> bool {
    0 <= j < g.len() && j < a.len() && g[j] == a[j]
}

/// The first `n` typed characters as drawn: each preceded by its color
/// escape, green on a match, red otherwise.
pub open spec fn colored_guess_spec(a: Seq<u8>, g: Seq<u8>, n: int) -> Seq<char>
    recommends
        0 <= n <= g.len(),
    decreases n,
{
    if n <= 0 {
        Seq::empty()
    } else {
        colored_guess_spec(a, g, n - 1) + color_code(guess_matches_at(a, g, n - 1)) + seq![
            g[n - 1] as char,
        ]
    }
}

/// The whole top line: padding under the prompt, then one overshoot
/// marker per scored character.
pub open spec fn top_line_spec(q: Seq<u8>, a: Seq<u8>, g: Seq<u8>) -> Seq<char> {
    pad_spec(q.len() + 4 as int) + over_prefix(a, g, g.len() as int)
}

/// The whole middle line: the prompt, the colorized guess, and the color
/// reset.
pub open spec fn mid_line_spec(q: Seq<u8>, a: Seq<u8>, g: Seq<u8>) -> Seq<char> {
    prompt_spec(q) + colored_guess_spec(a, g, g.len() as int) + reset_code()
}

/// The whole bottom line: padding, then one undershoot marker per scored
/// character.
pub open spec fn bottom_line_spec(q: Seq<u8>, a: Seq<u8>, g: Seq<u8>) -> Seq<char> {
    pad_spec(q.len() + 4 as int) + under_prefix(a, g, g.len() as int)
}

/// One redraw: the three stacked lines, and the column the cursor lands
/// in, just past the last typed character on the middle line.
pub struct DiffLines {
    pub top: Vec<char>,
    pub mid: Vec<char>,
    pub bottom: Vec<char>,
    pub cursor_col: usize,
}

fn push_green(line: &mut Vec<char>)
    ensures
        final(line)@ == old(line)@ + green_code(),
{
    line.push('\x1b');
    line.push('[');
    line.push('0');
    line.push(';');
    line.push('3');
    line.push('2');
    line.push('m');
    assert(line@ =~= old(line)@ + green_code());
}

fn push_red(line: &mut Vec<char>)
    ensures
        final(line)@ == old(line)@ + red_code(),
{
    line.push('\x1b');
    line.push('[');
    line.push('0');
    line.push(';');
    line.push('3');
    line.push('1');
    line.push('m');
    assert(line@ =~= old(line)@ + red_code());
}

fn push_reset(line: &mut Vec<char>)
    ensures
        final(line)@ == old(line)@ + reset_code(),
{
    line.push('\x1b');
    line.push('[');
    line.push('0');
    line.push('m');
    assert(line@ =~= old(line)@ + reset_code());
}

/// One redraw of the round: the three lines for the given question,
/// expected answer, and guess so far. The result is a function of the
/// three arguments alone, so redrawing the same state draws the same
/// picture.
pub fn display_guess(question: &[u8], correct: &[u8], guess: &[u8]) -> (r: DiffLines)
    requires
        question@.len() + 4 + guess@.len() <= usize::MAX,
    ensures
        r.top@ == top_line_spec(question@, correct@, guess@),
        r.mid@ == mid_line_spec(question@, correct@, guess@),
        r.bottom@ == bottom_line_spec(question@, correct@, guess@),
        r.cursor_col == question@.len() + 4 + guess@.len(),
{
    let pad_len = question.len() + 4;

    let mut top: Vec<char> = Vec::new();
    let mut bottom: Vec<char> = Vec::new();
    let mut i: usize = 0;
    while i < pad_len
        invariant
            i <= pad_len,
            top@ =~= pad_spec(i as int),
            bottom@ =~= pad_spec(i as int),
        decreases pad_len - i,
    {
        top.push(' ');
        bottom.push(' ');
        i = i + 1;
    }

    let mut mid: Vec<char> = Vec::new();
    let mut i: usize = 0;
    while i < question.len()
        invariant
            i <= question@.len(),
            mid@ =~= question@.take(i as int).map_values(|c: u8| c as char),
        decreases question@.len() - i,
    {
        mid.push(question[i] as char);
        i = i + 1;
    }
    mid.push(' ');
    mid.push('-');
    mid.push('>');
    mid.push(' ');
    assert(mid@ =~= prompt_spec(question@));

    let glen = guess.len();
    let alen = correct.len();
    let mut j: usize = 0;
    while j < glen
        invariant
            j <= glen,
            glen == guess@.len(),
            alen == correct@.len(),
            pad_len == question@.len() + 4,
            top@ =~= pad_spec(pad_len as int) + over_prefix(correct@, guess@, j as int),
            bottom@ =~= pad_spec(pad_len as int) + under_prefix(correct@, guess@, j as int),
            mid@ =~= prompt_spec(question@) + colored_guess_spec(correct@, guess@, j as int),
        decreases glen - j,
    {
        let g = guess[j];
        if j < alen {
            let a = correct[j];
            if g == a {
                push_green(&mut mid);
                top.push(' ');
                bottom.push(' ');
            } else {
                push_red(&mut mid);
                if g > a {
                    top.push(num_to_char(g - a));
                    bottom.push(' ');
                } else {
                    top.push(' ');
                    bottom.push(num_to_char(a - g));
                }
            }
        } else {
            push_red(&mut mid);
        }
        mid.push(g as char);
        proof {
            assert(colored_guess_spec(correct@, guess@, j + 1) == colored_guess_spec(
                correct@,
                guess@,
                j as int,
            ) + color_code(guess_matches_at(correct@, guess@, j as int)) + seq![
                guess@[j as int] as char,
            ]);
            assert(mid@ =~= prompt_spec(question@) + colored_guess_spec(
                correct@,
                guess@,
                j + 1,
            ));
            assert(top@ =~= pad_spec(pad_len as int) + over_prefix(correct@, guess@, j + 1));
            assert(bottom@ =~= pad_spec(pad_len as int) + under_prefix(correct@, guess@, j + 1));
        }
        j = j + 1;
    }

    push_reset(&mut mid);
    assert(top@ =~= top_line_spec(question@, correct@, guess@));
    assert(mid@ =~= mid_line_spec(question@, correct@, guess@));
    assert(bottom@ =~= bottom_line_spec(question@, correct@, guess@));

    let cursor_col = pad_len + glen;
    DiffLines { top, mid, bottom, cursor_col }
}

/// Rendering is deterministic: two redraws of the same question, answer
/// and guess carry the same three lines.
pub proof fn lemma_render_deterministic(
    q: Seq<u8>,
    a: Seq<u8>,
    g: Seq<u8>,
    r1: DiffLines,
    r2: DiffLines,
)
    requires
        r1.top@ == top_line_spec(q, a, g),
        r1.mid@ == mid_line_spec(q, a, g),
        r1.bottom@ == bottom_line_spec(q, a, g),
        r2.top@ == top_line_spec(q, a, g),
        r2.mid@ == mid_line_spec(q, a, g),
        r2.bottom@ == bottom_line_spec(q, a, g),
    ensures
        r1.top@ == r2.top@,
        r1.mid@ == r2.mid@,
        r1.bottom@ == r2.bottom@,
{
}

} // verus!
