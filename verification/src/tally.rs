//! The per-letter mistake tally: one counter for each lowercase letter,
//! indexed by `letter - 'a'`, growing over a whole session.

use vstd::prelude::*;

verus! {

/// How many letters the tally covers: one slot per lowercase letter.
pub const LETTER_COUNT: usize = 26;

/// Per-letter mistake counts. Slot `i` belongs to the letter
/// `'a' + i` of the *question*, not of the cipher answer.
pub struct Tally {
    counts: Vec<u16>,
}

impl View for Tally {
    type V = Seq<u16>;

    closed spec fn view(&self) -> Seq<u16> {
        self.counts@
    }
}

/// The report drawn from the first `n` slots: a pair `(letter, count)`
/// for every slot with a nonzero count, in alphabetical order.
pub open spec fn report_up_to(s: Seq<u16>, n: int) -> Seq<(u8, u16)>
    recommends
        0 <= n <= s.len() <= 26,
    decreases n,
{
    if n <= 0 {
        Seq::empty()
    } else {
        report_up_to(s, n - 1) + if s[n - 1] > 0 {
            seq![(((n - 1) + 0x61) as u8, s[n - 1])]
        } else {
            Seq::empty()
        }
    }
}

/// The whole report: nonzero slots only, alphabetical.
pub open spec fn report_spec(s: Seq<u16>) -> Seq<(u8, u16)> {
    report_up_to(s, s.len() as int)
}

impl Tally {
    /// One slot per letter, whatever else holds of the counts.
    pub open spec fn wf(&self) -> bool {
        self@.len() == LETTER_COUNT
    }

    /// A fresh tally: every count zero.
    pub fn new() -> (t: Tally)
        ensures
            t.wf(),
            forall|i: int| 0 <= i < LETTER_COUNT ==> t@[i] == 0,
    {
        let mut counts: Vec<u16> = Vec::new();
        let mut i: usize = 0;
        while i < LETTER_COUNT
            invariant
                i <= LETTER_COUNT,
                counts@.len() == i,
                forall|j: int| 0 <= j < i ==> counts@[j] == 0,
            decreases LETTER_COUNT - i,
        {
            counts.push(0);
            i = i + 1;
        }
        Tally { counts }
    }

    /// The count of one slot.
    pub fn get(&self, i: usize) -> (c: u16)
        requires
            self.wf(),
            i < LETTER_COUNT,
        ensures
            c == self@[i as int],
    {
        self.counts[i]
    }

    /// One more mistake against slot `i`.
    pub fn record(&mut self, i: usize)
        requires
            old(self).wf(),
            i < LETTER_COUNT,
            old(self)@[i as int] < u16::MAX,
        ensures
            final(self).wf(),
            final(self)@ == old(self)@.update(i as int, (old(self)@[i as int] + 1) as u16),
    {
        let c = self.counts[i];
        self.counts.set(i, c + 1);
    }

    /// The session report: every letter with at least one mistake, with
    /// its count, in alphabetical order; letters without mistakes are
    /// left out.
    pub fn report(&self) -> (r: Vec<(u8, u16)>)
        requires
            self.wf(),
        ensures
            r@ == report_spec(self@),
    {
        let mut out: Vec<(u8, u16)> = Vec::new();
        let mut i: usize = 0;
        while i < LETTER_COUNT
            invariant
                self.wf(),
                i <= LETTER_COUNT,
                out@ =~= report_up_to(self@, i as int),
            decreases LETTER_COUNT - i,
        {
            let c = self.counts[i];
            if c > 0 {
                out.push(((i as u8) + 0x61, c));
            }
            i = i + 1;
        }
        assert(out@ =~= report_spec(self@));
        out
    }
}

} // verus!
