//! Debouncing of the raw button level.
//!
//! The button is wired active-low: a raw level of `false` means the contact
//! is pressed and `true` means it is released.  The debouncer counts
//! consecutive pressed polls and fires exactly once when the count reaches
//! the threshold; any released poll re-arms the counter and cancels a count
//! in progress.

use vstd::prelude::*;

verus! {

/// Number of consecutive pressed polls required before a press is genuine.
pub const DEBOUNCE_THRESHOLD: u16 = 500;

/// Raw input level of a pressed contact (active-low wiring).
pub const LEVEL_PRESSED: bool = false;

/// Raw input level of a released contact.
pub const LEVEL_RELEASED: bool = true;

/// The single event a debounced button can produce.
#[derive(Clone, Copy, PartialEq, Eq, Structural, Debug)]
pub enum Event {
    Fire,
}

/// Counter value after one poll at the given raw level.
pub open spec fn step_remaining(r: nat, level: bool) -> nat {
    if level == LEVEL_RELEASED {
        DEBOUNCE_THRESHOLD as nat
    } else if r > 0 {
        (r - 1) as nat
    } else {
        0
    }
}

/// Whether one poll at the given raw level fires: only the pressed poll
/// that moves the counter from one to zero does.
pub open spec fn step_fires(r: nat, level: bool) -> bool {
    level == LEVEL_PRESSED && r == 1
}

/// Counter value after polling a whole sequence of raw levels.
pub open spec fn run_remaining(r0: nat, levels: Seq<bool>) -> nat
    decreases levels.len(),
{
    if levels.len() == 0 {
        r0
    } else {
        run_remaining(step_remaining(r0, levels.first()), levels.drop_first())
    }
}

/// Number of fire events produced while polling a sequence of raw levels.
pub open spec fn fire_count(r0: nat, levels: Seq<bool>) -> nat
    decreases levels.len(),
{
    if levels.len() == 0 {
        0
    } else {
        (if step_fires(r0, levels.first()) {
            1nat
        } else {
            0nat
        }) + fire_count(step_remaining(r0, levels.first()), levels.drop_first())
    }
}

/// Running a sequence and then one more level is one step after the sequence.
pub proof fn lemma_run_remaining_push(r0: nat, levels: Seq<bool>, l: bool)
    ensures
        run_remaining(r0, levels.push(l)) == step_remaining(run_remaining(r0, levels), l),
    decreases levels.len(),
{
    reveal_with_fuel(run_remaining, 2);
    if levels.len() == 0 {
        assert(levels.push(l).first() == l);
        assert(levels.push(l).drop_first() =~= Seq::<bool>::empty());
    } else {
        assert(levels.push(l).first() == levels.first());
        assert(levels.push(l).drop_first() =~= levels.drop_first().push(l));
        lemma_run_remaining_push(step_remaining(r0, levels.first()), levels.drop_first(), l);
    }
}

/// Over an all-pressed run the debouncer fires exactly once when the run is
/// at least as long as the starting counter (and the counter started armed),
/// and never otherwise; the counter simply counts down and stays at zero.
pub proof fn lemma_pressed_run(r0: nat, levels: Seq<bool>)
    requires
        forall|i: int| 0 <= i < levels.len() ==> levels[i] == LEVEL_PRESSED,
    ensures
        fire_count(r0, levels) == (if 0 < r0 <= levels.len() {
            1nat
        } else {
            0nat
        }),
        run_remaining(r0, levels) == (if levels.len() >= r0 {
            0nat
        } else {
            (r0 - levels.len()) as nat
        }),
    decreases levels.len(),
{
    if levels.len() > 0 {
        let rest = levels.drop_first();
        assert(forall|i: int| 0 <= i < rest.len() ==> rest[i] == LEVEL_PRESSED);
        lemma_pressed_run(step_remaining(r0, levels.first()), rest);
    }
}

/// After a fire the counter is depleted, and no further fire can occur for
/// any number of pressed polls: only a released level re-arms the counter.
pub proof fn lemma_no_second_fire_before_release(r: nat, level: bool, rest: Seq<bool>)
    requires
        step_fires(r, level),
        forall|i: int| 0 <= i < rest.len() ==> rest[i] == LEVEL_PRESSED,
    ensures
        fire_count(step_remaining(r, level), rest) == 0,
{
    lemma_pressed_run(0, rest);
}

/// Counter value reached just before position `i` of a trace that starts
/// from a freshly armed debouncer.
pub open spec fn remaining_at(levels: Seq<bool>, i: int) -> nat {
    run_remaining(DEBOUNCE_THRESHOLD as nat, levels.take(i))
}

/// Whether the debouncer, freshly armed at the start of the trace, fires
/// on the poll at position `i`.
pub open spec fn fires_at(levels: Seq<bool>, i: int) -> bool {
    step_fires(remaining_at(levels, i), levels[i])
}

/// While the level stays pressed, an armed counter counts down one per
/// poll.
proof fn lemma_countdown(levels: Seq<bool>, i: int, m: int)
    requires
        0 <= i,
        0 <= m,
        i + m <= levels.len(),
        remaining_at(levels, i) == DEBOUNCE_THRESHOLD as nat,
        m <= DEBOUNCE_THRESHOLD,
        forall|k: int| i <= k < i + m ==> levels[k] == LEVEL_PRESSED,
    ensures
        remaining_at(levels, i + m) == DEBOUNCE_THRESHOLD - m,
    decreases m,
{
    if m > 0 {
        lemma_countdown(levels, i, m - 1);
        assert(levels.take(i + m) =~= levels.take(i + m - 1).push(levels[i + m - 1]));
        lemma_run_remaining_push(
            DEBOUNCE_THRESHOLD as nat,
            levels.take(i + m - 1),
            levels[i + m - 1],
        );
    }
}

/// A depleted counter stays depleted for as long as the level stays
/// pressed.
proof fn lemma_depleted_stays(levels: Seq<bool>, i: int, j: int)
    requires
        0 <= i <= j <= levels.len(),
        remaining_at(levels, i) == 0,
        forall|k: int| i <= k < j ==> levels[k] == LEVEL_PRESSED,
    ensures
        remaining_at(levels, j) == 0,
    decreases j - i,
{
    if j > i {
        assert(levels.take(i + 1) =~= levels.take(i).push(levels[i]));
        lemma_run_remaining_push(DEBOUNCE_THRESHOLD as nat, levels.take(i), levels[i]);
        lemma_depleted_stays(levels, i + 1, j);
    }
}

/// Once the debouncer fires, it cannot fire again before a released level
/// has been observed at least once.
pub proof fn lemma_no_refire_before_release(levels: Seq<bool>, i: int, j: int)
    requires
        0 <= i < j < levels.len(),
        fires_at(levels, i),
        forall|k: int| i < k <= j ==> levels[k] == LEVEL_PRESSED,
    ensures
        !fires_at(levels, j),
{
    assert(levels.take(i + 1) =~= levels.take(i).push(levels[i]));
    lemma_run_remaining_push(DEBOUNCE_THRESHOLD as nat, levels.take(i), levels[i]);
    assert(remaining_at(levels, i + 1) == 0);
    lemma_depleted_stays(levels, i + 1, j);
}

/// Within a contiguous pressed run of an arbitrary level trace that begins
/// fresh (at the start of the trace or right after a released level), the
/// debouncer fires exactly once when the run reaches the threshold — on
/// the threshold-th poll of the run — and never when the run is shorter.
pub proof fn lemma_debounce_window(levels: Seq<bool>, i: int, j: int)
    requires
        0 <= i <= j <= levels.len(),
        forall|k: int| i <= k < j ==> levels[k] == LEVEL_PRESSED,
        i == 0 || levels[i - 1] == LEVEL_RELEASED,
    ensures
        fire_count(remaining_at(levels, i), levels.subrange(i, j)) <= 1,
        j - i < DEBOUNCE_THRESHOLD ==> fire_count(
            remaining_at(levels, i),
            levels.subrange(i, j),
        ) == 0,
        j - i >= DEBOUNCE_THRESHOLD ==> fire_count(
            remaining_at(levels, i),
            levels.subrange(i, j),
        ) == 1,
        j - i >= DEBOUNCE_THRESHOLD ==> fires_at(levels, i + DEBOUNCE_THRESHOLD - 1),
{
    if i == 0 {
        assert(levels.take(0) =~= Seq::<bool>::empty());
    } else {
        assert(levels.take(i) =~= levels.take(i - 1).push(levels[i - 1]));
        lemma_run_remaining_push(DEBOUNCE_THRESHOLD as nat, levels.take(i - 1), levels[i - 1]);
    }
    assert(remaining_at(levels, i) == DEBOUNCE_THRESHOLD as nat);
    let window = levels.subrange(i, j);
    assert(forall|k: int| 0 <= k < window.len() ==> window[k] == LEVEL_PRESSED);
    lemma_pressed_run(DEBOUNCE_THRESHOLD as nat, window);
    if j - i >= DEBOUNCE_THRESHOLD {
        lemma_countdown(levels, i, DEBOUNCE_THRESHOLD - 1);
        assert(remaining_at(levels, i + DEBOUNCE_THRESHOLD - 1) == 1);
    }
}

/// Edge-triggering state machine over the raw button level.
pub struct Debouncer {
    remaining: u16,
}

impl Debouncer {
    /// Polls still required before a press fires.
    pub closed spec fn remaining(self) -> nat {
        self.remaining as nat
    }

    pub open spec fn wf(self) -> bool {
        self.remaining() <= DEBOUNCE_THRESHOLD
    }

    /// A fresh debouncer is fully armed.
    pub fn new() -> (s: Self)
        ensures
            s.wf(),
            s.remaining() == DEBOUNCE_THRESHOLD,
    {
        Debouncer { remaining: DEBOUNCE_THRESHOLD }
    }

    /// Advance one tick with the current raw level; fires exactly on the
    /// pressed poll that depletes the counter.
    pub fn poll(&mut self, level: bool) -> (fired: Option<Event>)
        requires
            old(self).wf(),
        ensures
            final(self).wf(),
            final(self).remaining() == step_remaining(old(self).remaining(), level),
            fired == (if step_fires(old(self).remaining(), level) {
                Some(Event::Fire)
            } else {
                None::<Event>
            }),
    {
        if level == LEVEL_PRESSED && self.remaining > 0 {
            self.remaining = self.remaining - 1;
            if self.remaining == 0 {
                return Some(Event::Fire);
            }
        } else if level == LEVEL_RELEASED {
            self.remaining = DEBOUNCE_THRESHOLD;
        }
        None
    }
}

} // verus!
