//! A terminal drill for a one-step letter-shift cipher.
//!
//! The library holds the verified core of the drill: the cipher itself,
//! the three-line diff rendering of a partial guess against the expected
//! answer, the per-round input state machine, the per-letter mistake
//! tally, and the random choice of the next question.

pub mod cipher;
pub mod render;
pub mod round;
pub mod session;
pub mod tally;
