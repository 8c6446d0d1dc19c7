use cipher_drill::cipher::{encode, encode_byte};
use cipher_drill::render::{display_guess, num_to_char};
use cipher_drill::round::{char_press, is_solved, step, Key, QuestionResult};
use cipher_drill::session::{pick_question_index, pool_bounds};
use cipher_drill::tally::Tally;

const GREEN: &str = "\x1b[0;32m";
const RED: &str = "\x1b[0;31m";
const RESET: &str = "\x1b[0m";

fn chars_of(s: &str) -> Vec<char> {
    s.chars().collect()
}

fn string_of(v: &[char]) -> String {
    v.iter().collect()
}

#[test]
fn encode_byte_shifts_and_wraps() {
    assert_eq!(encode_byte(b'a'), b'b');
    assert_eq!(encode_byte(b'm'), b'n');
    assert_eq!(encode_byte(b'y'), b'z');
    assert_eq!(encode_byte(b'z'), b'a');
}

#[test]
fn encode_whole_words() {
    assert_eq!(encode(b"cat"), b"dbu".to_vec());
    assert_eq!(encode(b"zebra"), b"afcsb".to_vec());
    assert_eq!(encode(b""), Vec::<u8>::new());
}

#[test]
fn encode_matches_modular_formula() {
    let word = b"thequickbrownfoxjumpsoverthelazydog";
    let out = encode(word);
    assert_eq!(out.len(), word.len());
    for i in 0..word.len() {
        assert_eq!(out[i], (word[i] - b'a' + 1) % 26 + b'a');
    }
}

#[test]
fn num_to_char_digits_and_plus() {
    assert_eq!(num_to_char(1), '1');
    assert_eq!(num_to_char(9), '9');
    assert_eq!(num_to_char(10), '+');
    assert_eq!(num_to_char(255), '+');
}

#[test]
fn render_is_deterministic() {
    let q = b"cat";
    let a = b"dbu";
    let g = b"dxu";
    let r1 = display_guess(q, a, g);
    let r2 = display_guess(q, a, g);
    assert_eq!(r1.top, r2.top);
    assert_eq!(r1.mid, r2.mid);
    assert_eq!(r1.bottom, r2.bottom);
    assert_eq!(r1.cursor_col, r2.cursor_col);
}

#[test]
fn render_empty_guess() {
    let r = display_guess(b"cat", b"dbu", b"");
    assert_eq!(string_of(&r.top), "       ");
    assert_eq!(string_of(&r.mid), format!("cat -> {RESET}"));
    assert_eq!(string_of(&r.bottom), "       ");
    assert_eq!(r.cursor_col, 7);
}

#[test]
fn render_matched_guess_is_green() {
    let r = display_guess(b"cat", b"dbu", b"db");
    assert_eq!(
        string_of(&r.mid),
        format!("cat -> {GREEN}d{GREEN}b{RESET}")
    );
    assert_eq!(string_of(&r.top), "         ");
    assert_eq!(string_of(&r.bottom), "         ");
    assert_eq!(r.cursor_col, 9);
}

#[test]
fn render_undershoot_marks_bottom_line() {
    // Typed 't' where 'u' was expected: one short, so the bottom line
    // carries '1' under that column and the top line stays blank.
    let r = display_guess(b"cat", b"dbu", b"dbt");
    assert_eq!(
        string_of(&r.mid),
        format!("cat -> {GREEN}d{GREEN}b{RED}t{RESET}")
    );
    assert_eq!(string_of(&r.top), "          ");
    assert_eq!(string_of(&r.bottom), "         1");
    assert_eq!(r.cursor_col, 10);
}

#[test]
fn render_overshoot_marks_top_line() {
    // Typed 'z' where 'b' was expected: 24 over, which renders as '+'
    // on the top line; 'd' where 'c' was expected renders as '1'.
    let r = display_guess(b"ab", b"bc", b"zd");
    assert_eq!(string_of(&r.top), "      +1");
    assert_eq!(string_of(&r.bottom), "        ");
    assert_eq!(
        string_of(&r.mid),
        format!("ab -> {RED}z{RED}d{RESET}")
    );
}

#[test]
fn render_extra_characters_are_red_and_unscored() {
    // Guess longer than the answer: the extra characters are drawn in
    // red but get no marker columns.
    let r = display_guess(b"cat", b"dbu", b"dbuxy");
    assert_eq!(string_of(&r.top), "          ");
    assert_eq!(string_of(&r.bottom), "          ");
    assert_eq!(
        string_of(&r.mid),
        format!("cat -> {GREEN}d{GREEN}b{GREEN}u{RED}x{RED}y{RESET}")
    );
    assert_eq!(r.cursor_col, 12);
}

#[test]
fn mistake_charged_to_question_letter() {
    // Wrong first key for question "cat" (answer "dbu"): the tally rises
    // at 'c' (the question's letter), not at 'd' (the cipher's).
    let q = b"cat";
    let a = b"dbu";
    let mut guess: Vec<u8> = Vec::new();
    let mut t = Tally::new();
    char_press(b'x', &mut guess, a, q, &mut t);
    assert_eq!(guess, b"x".to_vec());
    assert_eq!(t.get((b'c' - b'a') as usize), 1);
    assert_eq!(t.get((b'd' - b'a') as usize), 0);
    for i in 0..26 {
        if i != (b'c' - b'a') as usize {
            assert_eq!(t.get(i), 0);
        }
    }
}

#[test]
fn correct_key_scores_nothing() {
    let q = b"cat";
    let a = b"dbu";
    let mut guess: Vec<u8> = Vec::new();
    let mut t = Tally::new();
    char_press(b'd', &mut guess, a, q, &mut t);
    assert_eq!(guess, b"d".to_vec());
    for i in 0..26 {
        assert_eq!(t.get(i), 0);
    }
}

#[test]
fn non_alphabetic_keys_are_ignored() {
    let q = b"cat";
    let a = b"dbu";
    let mut guess: Vec<u8> = Vec::new();
    let mut t = Tally::new();
    char_press(b'1', &mut guess, a, q, &mut t);
    char_press(b' ', &mut guess, a, q, &mut t);
    char_press(b'-', &mut guess, a, q, &mut t);
    assert!(guess.is_empty());
    for i in 0..26 {
        assert_eq!(t.get(i), 0);
    }
}

#[test]
fn keys_past_answer_length_are_unscored() {
    let q = b"cat";
    let a = b"dbu";
    let mut guess = b"dbu".to_vec();
    let mut t = Tally::new();
    char_press(b'q', &mut guess, a, q, &mut t);
    assert_eq!(guess, b"dbuq".to_vec());
    for i in 0..26 {
        assert_eq!(t.get(i), 0);
    }
}

#[test]
fn backspace_on_empty_guess_is_noop() {
    let q = b"cat";
    let a = b"dbu";
    let mut guess: Vec<u8> = Vec::new();
    let mut t = Tally::new();
    let r = step(Key::Backspace, &mut guess, a, q, &mut t);
    assert_eq!(r, None);
    assert!(guess.is_empty());
    for i in 0..26 {
        assert_eq!(t.get(i), 0);
    }
}

#[test]
fn backspace_drops_last_character() {
    let q = b"cat";
    let a = b"dbu";
    let mut guess = b"db".to_vec();
    let mut t = Tally::new();
    let r = step(Key::Backspace, &mut guess, a, q, &mut t);
    assert_eq!(r, None);
    assert_eq!(guess, b"d".to_vec());
}

#[test]
fn scenario_cat_dbu_third_key_short_by_one() {
    // Question "cat", cipher answer "dbu". Typing 'd', 'b', 't': the
    // third key misses 'u' by one from below, so the redraw shows a
    // blank top marker and '1' on the bottom line at that column, and
    // the tally for 't' (the question's third letter) rises by one.
    let q = b"cat";
    let a = encode(q);
    assert_eq!(a, b"dbu".to_vec());
    let mut guess: Vec<u8> = Vec::new();
    let mut t = Tally::new();
    assert_eq!(step(Key::Char(b'd'), &mut guess, &a, q, &mut t), None);
    assert_eq!(step(Key::Char(b'b'), &mut guess, &a, q, &mut t), None);
    assert_eq!(step(Key::Char(b't'), &mut guess, &a, q, &mut t), None);
    assert_eq!(guess, b"dbt".to_vec());
    let r = display_guess(q, &a, &guess);
    assert_eq!(r.top[9], ' ');
    assert_eq!(r.bottom[9], '1');
    assert_eq!(t.get((b't' - b'a') as usize), 1);
    assert_eq!(t.get((b'u' - b'a') as usize), 0);
}

#[test]
fn scenario_exact_answer_is_solved_at_once() {
    // Typing the exact expected answer resolves the round on the very
    // next state check, with no extra key needed and nothing tallied.
    let q = b"cat";
    let a = b"dbu";
    let mut guess: Vec<u8> = Vec::new();
    let mut t = Tally::new();
    for &c in b"dbu" {
        assert!(!is_solved(&guess, a));
        assert_eq!(step(Key::Char(c), &mut guess, a, q, &mut t), None);
    }
    assert!(is_solved(&guess, a));
    for i in 0..26 {
        assert_eq!(t.get(i), 0);
    }
}

#[test]
fn scenario_escape_quits_and_keeps_tallies() {
    // Escape ends the whole session from any partial guess, and the
    // mistakes gathered so far stay counted.
    let q = b"cat";
    let a = b"dbu";
    let mut guess: Vec<u8> = Vec::new();
    let mut t = Tally::new();
    step(Key::Char(b'x'), &mut guess, a, q, &mut t);
    assert_eq!(t.get((b'c' - b'a') as usize), 1);
    let r = step(Key::Esc, &mut guess, a, q, &mut t);
    assert_eq!(r, Some(QuestionResult::Quit));
    assert_eq!(guess, b"x".to_vec());
    assert_eq!(t.get((b'c' - b'a') as usize), 1);
}

#[test]
fn scenario_tab_forces_correct_without_penalty() {
    // Tab resolves the round as Correct even mid-guess, and the
    // unmatched remainder adds no mistakes.
    let q = b"cat";
    let a = b"dbu";
    let mut guess = b"d".to_vec();
    let mut t = Tally::new();
    let r = step(Key::Tab, &mut guess, a, q, &mut t);
    assert_eq!(r, Some(QuestionResult::Correct));
    assert_eq!(guess, b"d".to_vec());
    for i in 0..26 {
        assert_eq!(t.get(i), 0);
    }
}

#[test]
fn enter_skips_round() {
    let q = b"cat";
    let a = b"dbu";
    let mut guess = b"dx".to_vec();
    let mut t = Tally::new();
    let r = step(Key::Enter, &mut guess, a, q, &mut t);
    assert_eq!(r, Some(QuestionResult::Skip));
    assert_eq!(guess, b"dx".to_vec());
}

#[test]
fn other_keys_change_nothing() {
    let q = b"cat";
    let a = b"dbu";
    let mut guess = b"d".to_vec();
    let mut t = Tally::new();
    let r = step(Key::Other, &mut guess, a, q, &mut t);
    assert_eq!(r, None);
    assert_eq!(guess, b"d".to_vec());
}

#[test]
fn is_solved_compares_exactly() {
    assert!(is_solved(b"dbu", b"dbu"));
    assert!(!is_solved(b"db", b"dbu"));
    assert!(!is_solved(b"dbx", b"dbu"));
    assert!(!is_solved(b"dbux", b"dbu"));
    assert!(is_solved(b"", b""));
}

#[test]
fn report_lists_nonzero_counts_alphabetically() {
    let q = b"tca";
    let a = b"udb";
    let mut t = Tally::new();
    let mut guess: Vec<u8> = Vec::new();
    // Miss at every position of question "tca": one mistake each for
    // 't', 'c', 'a'.
    char_press(b'x', &mut guess, a, q, &mut t);
    char_press(b'x', &mut guess, a, q, &mut t);
    char_press(b'x', &mut guess, a, q, &mut t);
    let report = t.report();
    assert_eq!(report, vec![(b'a', 1), (b'c', 1), (b't', 1)]);
}

#[test]
fn report_of_fresh_tally_is_empty() {
    let t = Tally::new();
    assert!(t.report().is_empty());
}

#[test]
fn report_keeps_counts() {
    let q = b"aa";
    let a = b"bb";
    let mut t = Tally::new();
    let mut guess: Vec<u8> = Vec::new();
    char_press(b'x', &mut guess, a, q, &mut t);
    char_press(b'y', &mut guess, a, q, &mut t);
    assert_eq!(t.report(), vec![(b'a', 2)]);
}

#[test]
fn pool_bounds_split_at_common_pool() {
    assert_eq!(pool_bounds(true, 150), (0, 100));
    assert_eq!(pool_bounds(false, 150), (100, 150));
}

#[test]
fn picked_index_is_always_in_range() {
    // With 101 words the uncommon pool has exactly one index, so a draw
    // that stepped outside its pool would leave the list's bounds.
    for _ in 0..500 {
        let i = pick_question_index(101);
        assert!(i < 101);
    }
    for _ in 0..500 {
        let i = pick_question_index(150);
        assert!(i < 150);
    }
}

#[test]
fn cursor_lands_after_last_typed_character() {
    let r = display_guess(b"word", b"xpse", b"xp");
    // "word -> " is eight columns; two typed characters follow.
    assert_eq!(r.cursor_col, 10);
}
