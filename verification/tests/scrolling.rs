use stockdata::scroll::{
    poll_loaded, polls_until_settled, ScrollState, ScrollStep, WaitStep, LOAD_POLL_INTERVAL_MS,
    LOAD_TIMEOUT_MS, SCROLL_POLL_INTERVAL_MS, STABLE_POLLS,
};

#[test]
fn the_intervals_and_thresholds_are_fixed() {
    assert_eq!(LOAD_POLL_INTERVAL_MS, 200);
    assert_eq!(LOAD_TIMEOUT_MS, 10_000);
    assert_eq!(SCROLL_POLL_INTERVAL_MS, 300);
    assert_eq!(STABLE_POLLS, 30);
}

#[test]
fn a_loaded_check_ends_the_wait_or_times_out() {
    assert_eq!(poll_loaded(Some(true), 0, 10_000), WaitStep::Loaded);
    assert_eq!(poll_loaded(Some(true), 20_000, 10_000), WaitStep::Loaded);
    assert_eq!(poll_loaded(Some(false), 0, 10_000), WaitStep::PollAgain);
    assert_eq!(poll_loaded(Some(false), 10_000, 10_000), WaitStep::PollAgain);
    assert_eq!(poll_loaded(Some(false), 10_001, 10_000), WaitStep::TimedOut);
    assert_eq!(poll_loaded(None, 5, 10_000), WaitStep::PollAgain);
    assert_eq!(poll_loaded(None, 10_001, 10_000), WaitStep::TimedOut);
}

#[test]
fn scrolling_settles_thirty_polls_after_the_last_change() {
    for n in [1usize, 2, 5, 40] {
        let mut counts: Vec<i64> = (1..=n as i64).map(|i| i * 10).collect();
        let last = *counts.last().unwrap();
        counts.extend(std::iter::repeat(last).take(100));
        assert_eq!(polls_until_settled(&counts), Some(n + 30), "n = {}", n);
    }
}

#[test]
fn an_empty_table_settles_after_thirty_polls() {
    assert_eq!(polls_until_settled(&vec![0; 30]), Some(30));
    assert_eq!(polls_until_settled(&vec![0; 29]), None);
    assert_eq!(polls_until_settled(&vec![0; 100]), Some(30));
    assert_eq!(polls_until_settled(&Vec::new()), None);
}

#[test]
fn a_growing_table_never_settles() {
    let counts: Vec<i64> = (1..=1000).collect();
    assert_eq!(polls_until_settled(&counts), None);
    let mut slow = Vec::new();
    for i in 1..=20 {
        slow.extend(std::iter::repeat(i as i64).take(30));
    }
    assert_eq!(polls_until_settled(&slow), None);
    slow.push(20);
    assert_eq!(polls_until_settled(&slow), Some(slow.len()));
}

#[test]
fn a_zero_reading_counts_as_no_change() {
    let mut counts = vec![50];
    for i in 0..30 {
        counts.push(if i % 2 == 0 { 0 } else { 50 });
    }
    assert_eq!(polls_until_settled(&counts), Some(31));
}

#[test]
fn each_reading_says_what_to_do_next() {
    let mut state = ScrollState::new();
    assert_eq!(state, ScrollState { last_count: 0, idle_polls: 0 });
    assert!(!state.is_settled());
    assert_eq!(state.observe(10), ScrollStep::ScrollAgain);
    assert_eq!(state, ScrollState { last_count: 10, idle_polls: 0 });
    assert_eq!(state.observe(10), ScrollStep::Pause);
    assert_eq!(state, ScrollState { last_count: 10, idle_polls: 1 });
    assert_eq!(state.observe(0), ScrollStep::Pause);
    assert_eq!(state, ScrollState { last_count: 10, idle_polls: 2 });
    assert_eq!(state.observe(12), ScrollStep::ScrollAgain);
    assert_eq!(state, ScrollState { last_count: 12, idle_polls: 0 });
    for _ in 0..29 {
        assert_eq!(state.observe(12), ScrollStep::Pause);
    }
    assert_eq!(state.observe(12), ScrollStep::Settled);
    assert!(state.is_settled());
    let settled = state;
    assert_eq!(state.observe(99), ScrollStep::Settled);
    assert_eq!(state, settled);
}
