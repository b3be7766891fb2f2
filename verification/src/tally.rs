//! The shared vote tally: one counter per category and an aggregate total.
//! The total is incremented independently of the category counters; nothing
//! ties the two together, by design.

use vstd::prelude::*;

use crate::color::Color;

verus! {

/// The vote counters. Each is monotonically non-decreasing for the life
/// of the process.
#[derive(Debug)]
#[verifier::ext_equal]
pub struct Counters {
    pub red: u64,
    pub green: u64,
    pub blue: u64,
    pub purple: u64,
    pub total: u64,
}

impl Counters {
    /// The counter of one category.
    pub open spec fn spec_count(&self, c: Color) -> u64 {
        match c {
            Color::Red => self.red,
            Color::Green => self.green,
            Color::Blue => self.blue,
            Color::Purple => self.purple,
        }
    }

    /// Room for one more vote in every counter.
    pub open spec fn has_headroom(&self) -> bool {
        self.red < u64::MAX && self.green < u64::MAX && self.blue < u64::MAX && self.purple
            < u64::MAX && self.total < u64::MAX
    }

    /// Atomically increment one category's counter; the post-increment
    /// value is returned.
    pub fn increment(&mut self, c: Color) -> (n: u64)
        requires
            old(self).spec_count(c) < u64::MAX,
        ensures
            n == old(self).spec_count(c) + 1,
            final(self).spec_count(c) == n,
            forall|c2: Color| c2 != c ==> final(self).spec_count(c2) == old(self).spec_count(c2),
            final(self).total == old(self).total,
    {
        match c {
            Color::Red => {
                self.red = self.red + 1;
                self.red
            },
            Color::Green => {
                self.green = self.green + 1;
                self.green
            },
            Color::Blue => {
                self.blue = self.blue + 1;
                self.blue
            },
            Color::Purple => {
                self.purple = self.purple + 1;
                self.purple
            },
        }
    }

    /// Atomically increment the aggregate total; the post-increment value
    /// is returned. Always succeeds.
    pub fn increment_total(&mut self) -> (n: u64)
        requires
            old(self).total < u64::MAX,
        ensures
            n == old(self).total + 1,
            final(self).total == n,
            forall|c: Color| final(self).spec_count(c) == old(self).spec_count(c),
    {
        self.total = self.total + 1;
        self.total
    }
}

impl Default for Counters {
    /// A fresh tally: every counter at zero.
    fn default() -> (r: Counters)
        ensures
            r.red == 0 && r.green == 0 && r.blue == 0 && r.purple == 0 && r.total == 0,
    {
        Counters { red: 0, green: 0, blue: 0, purple: 0, total: 0 }
    }
}

/// One accepted vote: the category's counter and the total each rise by
/// exactly one.
pub open spec fn spec_vote(c: Counters, color: Color) -> Counters {
    match color {
        Color::Red => Counters { red: (c.red + 1) as u64, total: (c.total + 1) as u64, ..c },
        Color::Green => Counters { green: (c.green + 1) as u64, total: (c.total + 1) as u64, ..c },
        Color::Blue => Counters { blue: (c.blue + 1) as u64, total: (c.total + 1) as u64, ..c },
        Color::Purple => Counters {
            purple: (c.purple + 1) as u64,
            total: (c.total + 1) as u64,
            ..c
        },
    }
}

/// `n` accepted votes for one category, one after the other.
pub open spec fn spec_vote_n(c: Counters, color: Color, n: nat) -> Counters
    decreases n,
{
    if n == 0 {
        c
    } else {
        spec_vote(spec_vote_n(c, color, (n - 1) as nat), color)
    }
}

/// `n` sessions each sending one vote for the same category leave that
/// category's counter and the total each exactly `n` higher, with no lost
/// update, and the other counters untouched.
pub proof fn lemma_votes_accumulate(c: Counters, color: Color, n: nat)
    requires
        c.spec_count(color) + n <= u64::MAX,
        c.total + n <= u64::MAX,
    ensures
        spec_vote_n(c, color, n).spec_count(color) == c.spec_count(color) + n,
        spec_vote_n(c, color, n).total == c.total + n,
        forall|c2: Color| c2 != color ==> spec_vote_n(c, color, n).spec_count(c2) == c.spec_count(
            c2,
        ),
    decreases n,
{
    if n > 0 {
        lemma_votes_accumulate(c, color, (n - 1) as nat);
    }
}

} // verus!
