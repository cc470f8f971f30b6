//! A small counter that holds at its maximum instead of overflowing.

use vstd::prelude::*;

verus! {

/// The largest value a [`Counter`] can hold.
pub const COUNTER_MAX: u8 = 255;

/// `count + amount`, held at [`COUNTER_MAX`].
pub open spec fn saturating_sum(count: u8, amount: nat) -> u8 {
    if count + amount <= COUNTER_MAX {
        (count + amount) as u8
    } else {
        COUNTER_MAX
    }
}

/// A counter of rounds or events in `0..=255`. Adding to it never wraps and
/// never fails: past the maximum it stays at the maximum.
///
/// Its view is the count.
#[derive(Clone, Copy, Debug)]
pub struct Counter {
    value: u8,
}

impl View for Counter {
    type V = u8;

    closed spec fn view(&self) -> u8 {
        self.value
    }
}

impl Counter {
    /// A counter at zero.
    pub fn new() -> (counter: Counter)
        ensures
            counter@ == 0,
    {
        Counter { value: 0 }
    }

    /// The current count.
    pub fn value(&self) -> (value: u8)
        ensures
            value == self@,
    {
        self.value
    }

    /// Adds `amount`, holding at [`COUNTER_MAX`].
    pub fn saturating_add(&mut self, amount: u8)
        ensures
            final(self)@ == saturating_sum(old(self)@, amount as nat),
    {
        self.value = self.value.saturating_add(amount);
    }

    /// Sets the counter back to zero.
    pub fn reset(&mut self)
        ensures
            final(self)@ == 0,
    {
        self.value = 0;
    }
}

impl Default for Counter {
    fn default() -> (counter: Counter)
        ensures
            counter@ == 0,
    {
        Counter::new()
    }
}

} // verus!
