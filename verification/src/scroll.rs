//! Waiting for dynamic content: the poll that waits for a view to finish
//! loading, and the scrolling that makes a lazily loaded table show all its
//! rows.
//!
//! Both are decision functions. The caller evaluates a script in the page and
//! sleeps; what to do after each reading is decided here.

use vstd::prelude::*;

verus! {

/// Milliseconds between two evaluations of a loaded-check.
pub const LOAD_POLL_INTERVAL_MS: u64 = 200;

/// Milliseconds after which a view that has not finished loading is given up.
pub const LOAD_TIMEOUT_MS: u64 = 10_000;

/// Milliseconds to wait after the row count did not change.
pub const SCROLL_POLL_INTERVAL_MS: u64 = 300;

/// The number of consecutive polls without a change of the row count after
/// which the table counts as fully loaded.
pub const STABLE_POLLS: u32 = 30;

/// What to do after one evaluation of a loaded-check.
#[derive(Clone, Copy, Debug, PartialEq, Eq, Structural)]
pub enum WaitStep {
    /// The view has finished loading.
    Loaded,
    /// Sleep for the poll interval and evaluate the check again.
    PollAgain,
    /// The view did not finish loading in time.
    TimedOut,
}

/// The step after a loaded-check answered `loaded`, `elapsed_ms` after the wait
/// began: done where it answered yes; given up where it answered no and more
/// than `timeout_ms` have passed; else another poll.
pub open spec fn wait_step(loaded: bool, elapsed_ms: u64, timeout_ms: u64) -> WaitStep {
    if loaded {
        WaitStep::Loaded
    } else if elapsed_ms > timeout_ms {
        WaitStep::TimedOut
    } else {
        WaitStep::PollAgain
    }
}

/// Decides the step after a loaded-check. An answer that is no boolean counts
/// as "not loaded".
pub fn poll_loaded(answer: Option<bool>, elapsed_ms: u64, timeout_ms: u64) -> (step: WaitStep)
    ensures
        step == wait_step(answer == Some(true), elapsed_ms, timeout_ms),
{
    let loaded: bool = match answer {
        Some(b) => b,
        None => false,
    };
    if loaded {
        WaitStep::Loaded
    } else if elapsed_ms > timeout_ms {
        WaitStep::TimedOut
    } else {
        WaitStep::PollAgain
    }
}

/// The progress of scroll stabilization: the row count that was last seen to
/// change, and the number of polls in a row since then that saw no change.
#[derive(Clone, Copy, Debug, PartialEq, Eq, Structural)]
pub struct ScrollState {
    pub last_count: i64,
    pub idle_polls: u32,
}

/// What to do after one reading of the row count.
#[derive(Clone, Copy, Debug, PartialEq, Eq, Structural)]
pub enum ScrollStep {
    /// The count grew: scroll and count again at once.
    ScrollAgain,
    /// The count did not change: sleep for the poll interval, then scroll and
    /// count again.
    Pause,
    /// The count has not changed for long enough: the table is fully loaded.
    Settled,
}

impl ScrollState {
    /// The state before the first poll.
    pub open spec fn start() -> ScrollState {
        ScrollState { last_count: 0, idle_polls: 0 }
    }

    /// Whether the table counts as fully loaded.
    pub open spec fn settled(self) -> bool {
        self.idle_polls >= STABLE_POLLS
    }

    /// Whether a reading of `count` is no change: it is the count seen before,
    /// or zero.
    pub open spec fn unchanged(self, count: i64) -> bool {
        count == self.last_count || count == 0
    }

    /// The state after a reading of `count`. A settled state stays as it is; a
    /// reading without change is one more idle poll; a change starts the
    /// counting of idle polls anew.
    pub open spec fn after(self, count: i64) -> ScrollState {
        if self.settled() {
            self
        } else if self.unchanged(count) {
            ScrollState { last_count: self.last_count, idle_polls: (self.idle_polls + 1) as u32 }
        } else {
            ScrollState { last_count: count, idle_polls: 0 }
        }
    }

    /// The step to take after a reading of `count`.
    pub open spec fn step_after(self, count: i64) -> ScrollStep {
        if self.after(count).settled() {
            ScrollStep::Settled
        } else if self.unchanged(count) {
            ScrollStep::Pause
        } else {
            ScrollStep::ScrollAgain
        }
    }

    /// The state after the readings `counts`, one after the other.
    pub open spec fn run(self, counts: Seq<i64>) -> ScrollState
        decreases counts.len(),
    {
        if counts.len() == 0 {
            self
        } else {
            self.run(counts.drop_last()).after(counts.last())
        }
    }

    /// The state before the first poll.
    pub fn new() -> (r: ScrollState)
        ensures
            r == ScrollState::start(),
    {
        ScrollState { last_count: 0, idle_polls: 0 }
    }

    /// Whether the table counts as fully loaded.
    pub fn is_settled(&self) -> (r: bool)
        ensures
            r == self.settled(),
    {
        self.idle_polls >= STABLE_POLLS
    }

    /// Takes one reading of the row count and decides what to do next.
    pub fn observe(&mut self, count: i64) -> (step: ScrollStep)
        ensures
            *final(self) == old(self).after(count),
            step == old(self).step_after(count),
    {
        if self.idle_polls >= STABLE_POLLS {
            ScrollStep::Settled
        } else if count == self.last_count || count == 0 {
            self.idle_polls = self.idle_polls + 1;
            if self.idle_polls >= STABLE_POLLS {
                ScrollStep::Settled
            } else {
                ScrollStep::Pause
            }
        } else {
            self.last_count = count;
            self.idle_polls = 0;
            ScrollStep::ScrollAgain
        }
    }
}

/// Runs scroll stabilization over a recorded sequence of row counts and says
/// after how many polls it settles, or that the sequence ends before it does.
pub fn polls_until_settled(counts: &Vec<i64>) -> (r: Option<usize>)
    ensures
        match r {
            Some(k) => 1 <= k <= counts.len() && ScrollState::start().run(
                counts@.take(k as int),
            ).settled() && !ScrollState::start().run(counts@.take(k - 1)).settled(),
            None => !ScrollState::start().run(counts@).settled(),
        },
{
    let mut state = ScrollState::new();
    let mut i: usize = 0;
    assert(counts@.take(0) =~= Seq::<i64>::empty());
    while i < counts.len()
        invariant
            i <= counts.len(),
            state == ScrollState::start().run(counts@.take(i as int)),
            !state.settled(),
        decreases counts.len() - i,
    {
        proof {
            let next = counts@.take(i + 1);
            assert(next.drop_last() == counts@.take(i as int));
            assert(next.last() == counts@[i as int]);
        }
        let step = state.observe(counts[i]);
        i += 1;
        if step == ScrollStep::Settled {
            return Some(i);
        }
    }
    assert(counts@.take(counts.len() as int) == counts@);
    None
}

/// After a poll that reads `count`, stabilization has settled, or it remembers
/// `count` unless that is zero.
pub proof fn lemma_after_remembers(state: ScrollState, count: i64)
    ensures
        state.after(count).settled() || count == 0 || state.after(count).last_count == count,
{
}

/// Once the row count has stopped changing, stabilization settles within
/// [`STABLE_POLLS`] further polls: where the `quiet` polls after the first `n`
/// all read what poll `n` read, the state after them has settled or has
/// counted `quiet` idle polls.
pub proof fn lemma_quiet_polls_count(start: ScrollState, counts: Seq<i64>, n: int, quiet: int)
    requires
        1 <= n,
        0 <= quiet <= STABLE_POLLS,
        n + quiet <= counts.len(),
        forall|i: int| n <= i < n + quiet ==> #[trigger] counts[i] == counts[n - 1],
    ensures
        ({
            let state = start.run(counts.take(n + quiet));
            state.settled() || (state.idle_polls >= quiet && (counts[n - 1] == 0
                || state.last_count == counts[n - 1]))
        }),
    decreases quiet,
{
    let taken = counts.take(n + quiet);
    assert(taken.drop_last() == counts.take(n + quiet - 1));
    assert(taken.last() == counts[n + quiet - 1]);
    if quiet == 0 {
        lemma_after_remembers(start.run(counts.take(n - 1)), counts[n - 1]);
    } else {
        lemma_quiet_polls_count(start, counts, n, quiet - 1);
    }
}

/// Scroll stabilization terminates: where the row count stops changing after
/// `n` polls, stabilization has settled at the latest [`STABLE_POLLS`] polls
/// later, whatever it had seen before.
pub proof fn lemma_scroll_settles(start: ScrollState, counts: Seq<i64>, n: int)
    requires
        1 <= n,
        n + STABLE_POLLS <= counts.len(),
        forall|i: int| n <= i < n + STABLE_POLLS ==> #[trigger] counts[i] == counts[n - 1],
    ensures
        start.run(counts.take(n + STABLE_POLLS)).settled(),
{
    lemma_quiet_polls_count(start, counts, n, STABLE_POLLS as int);
}

} // verus!
