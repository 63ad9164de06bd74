//! Debouncing: acting on the last of a burst of inputs, once it has been quiet
//! for a while.
//!
//! Every input gets a timer of its own, known by a token, and takes the place
//! of the one before it. A timer that fires is heeded only if it is the one
//! still waited for, so that whatever was superseded stays without effect even
//! where its timer could not be stopped in time.

use vstd::prelude::*;

verus! {

/// The number of tokens there are.
pub open spec fn token_count() -> nat {
    0x1_0000_0000_0000_0000
}

/// The token issued after `token`.
pub open spec fn following(token: u64) -> u64 {
    if token == u64::MAX {
        0
    } else {
        (token + 1) as u64
    }
}

/// The token of the `n`-th input after the one that got `first`.
pub open spec fn token_at(first: u64, n: nat) -> u64 {
    ((first + n) % 0x1_0000_0000_0000_0000) as u64
}

/// The debouncer of one input field.
#[derive(Debug, Clone, PartialEq, Eq)]
pub struct DebouncedInput {
    /// The quiet period, in milliseconds.
    pub delay_ms: u64,
    /// The token that the next input gets.
    pub next: u64,
    /// The token of the timer that is waited for, if one is.
    pub pending: Option<u64>,
}

/// A timer to start: after `delay_ms` it is to come back with `token` and
/// `value`. The timer named by `abort`, if any, is to be stopped.
#[derive(Debug, Clone, PartialEq, Eq)]
pub struct Debounced<T> {
    pub abort: Option<u64>,
    pub token: u64,
    pub delay_ms: u64,
    pub value: T,
}

impl DebouncedInput {
    /// The debouncer after one more input.
    pub open spec fn debounced(self) -> DebouncedInput {
        DebouncedInput {
            delay_ms: self.delay_ms,
            next: following(self.next),
            pending: Some(self.next),
        }
    }

    /// The debouncer after `n` inputs with no timer heeded in between.
    pub open spec fn debounced_times(self, n: nat) -> DebouncedInput
        decreases n,
    {
        if n == 0 {
            self
        } else {
            self.debounced_times((n - 1) as nat).debounced()
        }
    }

    /// The debouncer after the timer `token` has fired, and whether the timer
    /// is heeded: only the one that is waited for is, and then none is waited
    /// for any more.
    pub open spec fn elapsed(self, token: u64) -> (DebouncedInput, bool) {
        if self.pending == Some(token) {
            (DebouncedInput { pending: None, ..self }, true)
        } else {
            (self, false)
        }
    }

    /// A debouncer with a quiet period of `delay_ms` milliseconds, waiting for
    /// nothing.
    pub fn new(delay_ms: u64) -> (input: DebouncedInput)
        ensures
            input == (DebouncedInput { delay_ms, next: 0, pending: None }),
    {
        DebouncedInput { delay_ms, next: 0, pending: None }
    }

    /// Takes one more input: the timer before it is to be stopped, and a new
    /// one started for `value`.
    pub fn debounce<T>(&mut self, value: T) -> (timer: Debounced<T>)
        ensures
            *final(self) == old(self).debounced(),
            timer == (Debounced {
                abort: old(self).pending,
                token: old(self).next,
                delay_ms: old(self).delay_ms,
                value,
            }),
    {
        let token = self.next;
        let abort = self.pending;
        self.pending = Some(token);
        self.next = if token == u64::MAX {
            0
        } else {
            token + 1
        };
        Debounced { abort, token, delay_ms: self.delay_ms, value }
    }

    /// Takes the firing of the timer `token` and says whether it is to be
    /// heeded.
    pub fn fire(&mut self, token: u64) -> (due: bool)
        ensures
            (*final(self), due) == old(self).elapsed(token),
    {
        match self.pending {
            Some(waited) => {
                if waited == token {
                    self.pending = None;
                    true
                } else {
                    false
                }
            },
            None => false,
        }
    }
}

/// After `n` inputs the next token is the `n`-th after the first, and the
/// timer waited for is that of the last input.
pub proof fn lemma_tokens_in_turn(input: DebouncedInput, n: nat)
    ensures
        input.debounced_times(n).delay_ms == input.delay_ms,
        input.debounced_times(n).next == token_at(input.next, n),
        n > 0 ==> input.debounced_times(n).pending == Some(token_at(input.next, (n - 1) as nat)),
    decreases n,
{
    if n > 0 {
        lemma_tokens_in_turn(input, (n - 1) as nat);
    }
}

/// The last input wins. Of a burst of `n` inputs, however fast, only the
/// timer of the last is heeded: the timer of any earlier one, should it still
/// fire, is turned away and changes nothing.
pub proof fn lemma_last_input_wins(input: DebouncedInput, n: nat, earlier: nat)
    requires
        earlier + 1 < n <= token_count(),
    ensures
        ({
            let after = input.debounced_times(n);
            let last = token_at(input.next, (n - 1) as nat);
            let stale = token_at(input.next, earlier);
            &&& stale != last
            &&& after.elapsed(stale) == (after, false)
            &&& after.elapsed(last).1
            &&& after.elapsed(last).0.pending is None
        }),
{
    lemma_tokens_in_turn(input, n);
}

} // verus!
