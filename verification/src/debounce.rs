//! Per-caller cooldown: one remembered instant per caller, and the rule that
//! decides whether a new attempt comes too soon after it.

use vstd::prelude::*;
use std::collections::HashMap;

verus! {

broadcast use vstd::std_specs::hash::group_hash_axioms;

/// The cooldown between two accepted actions of one caller, in milliseconds.
pub const DEBOUNCE_WINDOW_MS: u64 = 2000;

/// Whether an attempt by `id` at `now` is accepted, given the instants `m`
/// remembers: the caller is unknown, or at least `window` has passed since
/// the remembered instant.
pub open spec fn accepts(m: Map<u64, u64>, id: u64, now: u64, window: u64) -> bool {
    !m.contains_key(id) || now - m[id] >= window
}

/// The remembered instants after an attempt: an accepted attempt replaces the
/// caller's instant, a rejected one changes nothing.
pub open spec fn after_attempt(m: Map<u64, u64>, id: u64, now: u64, window: u64) -> Map<u64, u64> {
    if accepts(m, id, now, window) {
        m.insert(id, now)
    } else {
        m
    }
}

/// For each caller that has acted, the instant of the last accepted action.
pub struct DebounceTable {
    last: HashMap<u64, u64>,
}

impl View for DebounceTable {
    type V = Map<u64, u64>;

    closed spec fn view(&self) -> Map<u64, u64> {
        self.last@
    }
}

impl DebounceTable {
    /// A table that remembers nobody.
    pub fn new() -> (r: Self)
        ensures
            r@ == Map::<u64, u64>::empty(),
    {
        DebounceTable { last: HashMap::new() }
    }

    /// The instant of the caller's last accepted action, if there was one.
    pub fn last_accepted(&self, id: u64) -> (r: Option<u64>)
        ensures
            r == if self@.contains_key(id) {
                Some(self@[id])
            } else {
                None
            },
    {
        match self.last.get(&id) {
            Some(t) => Some(*t),
            None => None,
        }
    }

    /// Checks the cooldown and, when the attempt is accepted, records `now`
    /// in the same step, so that of two attempts on one table at most the
    /// first can pass inside the window.
    pub fn try_accept(&mut self, id: u64, now: u64, window: u64) -> (r: bool)
        ensures
            r == accepts(old(self)@, id, now, window),
            final(self)@ == after_attempt(old(self)@, id, now, window),
    {
        let fresh: bool = match self.last.get(&id) {
            Some(t) => now >= *t && now - *t >= window,
            None => true,
        };
        if fresh {
            self.last.insert(id, now);
        }
        fresh
    }
}

/// The cooldown check with the fixed window of two seconds; `now` is in
/// milliseconds on any clock that does not run backwards.
pub fn check_button_debounce(table: &mut DebounceTable, user_id: u64, now: u64) -> (r: bool)
    ensures
        r == accepts(old(table)@, user_id, now, DEBOUNCE_WINDOW_MS),
        final(table)@ == after_attempt(old(table)@, user_id, now, DEBOUNCE_WINDOW_MS),
{
    table.try_accept(user_id, now, DEBOUNCE_WINDOW_MS)
}

/// A caller's first attempt passes; a second one inside the window is turned
/// away and leaves the remembered instant alone; one at or after the end of
/// the window passes again.
pub proof fn lemma_debounce_rounds(m: Map<u64, u64>, id: u64, t0: u64, t1: u64, t2: u64, w: u64)
    requires
        !m.contains_key(id),
        t1 < t0 + w,
        t2 >= t0 + w,
    ensures
        accepts(m, id, t0, w),
        !accepts(after_attempt(m, id, t0, w), id, t1, w),
        after_attempt(after_attempt(m, id, t0, w), id, t1, w) == after_attempt(m, id, t0, w),
        after_attempt(m, id, t0, w)[id] == t0,
        accepts(after_attempt(m, id, t0, w), id, t2, w),
{
}

/// After any attempt the table holds, for the caller, the instant of the
/// most recent accepted attempt, and nothing changes for anyone else.
pub proof fn lemma_attempt_touches_one(m: Map<u64, u64>, id: u64, now: u64, w: u64, other: u64)
    requires
        other != id,
    ensures
        after_attempt(m, id, now, w).contains_key(other) == m.contains_key(other),
        m.contains_key(other) ==> after_attempt(m, id, now, w)[other] == m[other],
        accepts(m, id, now, w) ==> after_attempt(m, id, now, w)[id] == now,
        !accepts(m, id, now, w) ==> after_attempt(m, id, now, w) == m,
{
}

} // verus!
