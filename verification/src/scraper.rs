//! One extraction run: open the page, wait for it, then visit every tab in
//! order, wait for it, scroll until its table is complete and read its rows.
//!
//! The run is a state machine. The caller owns the driver session: it carries
//! out each [`Command`] and reports what came of it as an [`Event`], together
//! with the reading of a millisecond clock. Which command follows which event
//! is decided here, by [`FetchRun::step`].

use crate::error::FetchError;
use crate::json::json_text_rows;
use crate::merge::{merge_stock_data_sources, merged_sources};
use crate::models::{StockData, StockRecord};
use crate::parser::{parse_tab_payload, payload_text, records_of_rows};
use crate::scripts::{
    extraction_script_text, get_data_extraction_script, get_tab_click_script,
    tab_click_script_text, PAGE_LOADED_SCRIPT, ROW_COUNT_SCRIPT, SCROLL_SCRIPT, TAB_LOADED_SCRIPT,
};
use crate::scroll::{
    poll_loaded, wait_step, ScrollState, ScrollStep, WaitStep, LOAD_POLL_INTERVAL_MS,
    LOAD_TIMEOUT_MS, SCROLL_POLL_INTERVAL_MS,
};
use crate::tabs::TabType;
use vstd::prelude::*;
use vstd::string::StringExecFns;

verus! {

/// The address of the screener page.
pub const TARGET_URL: &'static str = "https://cn.tradingview.com/screener/";

/// A script that the driver session evaluates in the page.
#[derive(Clone, Copy, Debug, PartialEq, Eq, Structural)]
pub enum Script {
    /// Activates a tab; answers whether the page has the tab's button.
    ClickTab(TabType),
    /// Answers whether the tab has finished loading.
    TabLoaded,
    /// Answers whether the page has finished loading.
    PageLoaded,
    /// Scrolls the table to its end.
    ScrollToBottom,
    /// Answers the number of rows that the table shows.
    RowCount,
    /// Answers the rows of a tab as JSON text.
    ExtractRows(TabType),
}

/// How the answer of a script is read.
#[derive(Clone, Copy, Debug, PartialEq, Eq, Structural)]
pub enum Reading {
    /// As a boolean, reported by [`Event::Boolean`].
    Boolean,
    /// As an integer, reported by [`Event::Number`].
    Number,
    /// As text, reported by [`Event::Text`].
    Text,
}

impl Script {
    /// How the answer of the script is read.
    pub open spec fn answer(self) -> Reading {
        match self {
            Script::RowCount => Reading::Number,
            Script::ExtractRows(_) => Reading::Text,
            _ => Reading::Boolean,
        }
    }

    /// How the answer of the script is read.
    pub fn reading(&self) -> (r: Reading)
        ensures
            r == self.answer(),
    {
        match self {
            Script::RowCount => Reading::Number,
            Script::ExtractRows(_) => Reading::Text,
            _ => Reading::Boolean,
        }
    }

    /// The text of the script.
    pub open spec fn text(self) -> Seq<char> {
        match self {
            Script::ClickTab(tab) => tab_click_script_text(tab.id_text()),
            Script::TabLoaded => TAB_LOADED_SCRIPT@,
            Script::PageLoaded => PAGE_LOADED_SCRIPT@,
            Script::ScrollToBottom => SCROLL_SCRIPT@,
            Script::RowCount => ROW_COUNT_SCRIPT@,
            Script::ExtractRows(tab) => extraction_script_text(tab),
        }
    }

    /// The text of the script.
    pub fn source(&self) -> (r: String)
        ensures
            r@ == self.text(),
    {
        match self {
            Script::ClickTab(tab) => get_tab_click_script(tab.id()),
            Script::TabLoaded => String::from_str(TAB_LOADED_SCRIPT),
            Script::PageLoaded => String::from_str(PAGE_LOADED_SCRIPT),
            Script::ScrollToBottom => String::from_str(SCROLL_SCRIPT),
            Script::RowCount => String::from_str(ROW_COUNT_SCRIPT),
            Script::ExtractRows(tab) => get_data_extraction_script(tab),
        }
    }
}

/// What the caller is to do next.
#[derive(Clone, Copy, Debug, PartialEq, Eq, Structural)]
pub enum Command {
    /// Open [`TARGET_URL`]; report [`Event::Navigated`] or [`Event::Failed`].
    Navigate,
    /// Evaluate the script; report its answer, or [`Event::Failed`].
    Evaluate(Script),
    /// Sleep for so many milliseconds; report [`Event::Slept`].
    Sleep(u64),
    /// Write the snapshot of the result; report [`Event::Persisted`] or
    /// [`Event::Failed`].
    Persist,
    /// The run is over; take its outcome.
    Complete,
}

/// What came of a command.
#[derive(Debug)]
pub enum Event {
    /// The page was opened.
    Navigated,
    /// A script answered; this is its answer read as a boolean, if it is one.
    Boolean(Option<bool>),
    /// A script answered; this is its answer read as an integer, if it is one.
    Number(Option<i64>),
    /// A script answered; this is its answer read as text, if it is text.
    Text(Option<String>),
    /// The sleep is over.
    Slept,
    /// The snapshot was written.
    Persisted,
    /// The driver session could not carry out the command.
    Failed,
}

/// The mathematical content of an [`Event`].
pub ghost enum EventModel {
    Navigated,
    Boolean(Option<bool>),
    Number(Option<i64>),
    Text(Option<Seq<char>>),
    Slept,
    Persisted,
    Failed,
}

impl View for Event {
    type V = EventModel;

    open spec fn view(&self) -> EventModel {
        match self {
            Event::Navigated => EventModel::Navigated,
            Event::Boolean(b) => EventModel::Boolean(*b),
            Event::Number(n) => EventModel::Number(*n),
            Event::Text(t) => EventModel::Text(
                match t {
                    Some(text) => Some(text@),
                    None => None,
                },
            ),
            Event::Slept => EventModel::Slept,
            Event::Persisted => EventModel::Persisted,
            Event::Failed => EventModel::Failed,
        }
    }
}

/// Where a run stands. The phase names the answer that the run waits for.
#[derive(Clone, Copy, Debug, PartialEq, Eq, Structural)]
pub enum Phase {
    /// The page is being opened.
    Navigating,
    /// The page's loaded-check is being evaluated.
    PageLoading,
    /// The pause between two evaluations of the page's loaded-check.
    PagePause,
    /// The tab's button is being clicked.
    Activating,
    /// The tab's loaded-check is being evaluated.
    LoadWaiting,
    /// The pause between two evaluations of the tab's loaded-check.
    LoadPause,
    /// The table is being scrolled to its end.
    Scrolling,
    /// The rows of the table are being counted.
    Counting,
    /// The pause after a row count without change.
    ScrollPause,
    /// The rows of the tab are being read.
    Extracting,
    /// The snapshot is being written.
    Persisting,
    /// The run is over.
    Finished,
}

/// The state of the current tab's activation cycle.
#[derive(Clone, Copy, Debug, PartialEq, Eq, Structural)]
pub enum TabState {
    Inactive,
    Activating,
    LoadWaiting,
    ScrollStabilizing,
    Extracting,
    Done,
}

impl Phase {
    /// The state of the tab's activation cycle in this phase of the run.
    pub open spec fn tab_state(self) -> TabState {
        match self {
            Phase::Navigating | Phase::PageLoading | Phase::PagePause => TabState::Inactive,
            Phase::Activating => TabState::Activating,
            Phase::LoadWaiting | Phase::LoadPause => TabState::LoadWaiting,
            Phase::Scrolling | Phase::Counting | Phase::ScrollPause => TabState::ScrollStabilizing,
            Phase::Extracting => TabState::Extracting,
            Phase::Persisting | Phase::Finished => TabState::Done,
        }
    }

    /// Whether a tab is being visited in this phase.
    pub open spec fn in_tab(self) -> bool {
        self.tab_state() != TabState::Inactive && self.tab_state() != TabState::Done
    }
}

/// An extraction run.
#[derive(Debug)]
pub struct FetchRun {
    /// Where the run stands.
    pub phase: Phase,
    /// The tab that is being visited, once the page has loaded.
    pub tab: TabType,
    /// The clock reading at which the current wait for loading began.
    pub wait_started_ms: u64,
    /// The progress of the current tab's scroll stabilization.
    pub scroll: ScrollState,
    /// Whether the result is to be written to a snapshot file.
    pub save_to_file: bool,
    /// Whether the run visits the first tab only.
    pub single_tab: bool,
    /// The records of the tabs read so far, in visiting order.
    pub sources: Vec<Vec<StockData>>,
    /// The failure that ended the run, if one did.
    pub failure: Option<FetchError>,
    /// The failure of the first tab that was skipped, if one was.
    pub first_tab_error: Option<FetchError>,
}

/// The mathematical content of a [`FetchRun`].
pub ghost struct FetchRunModel {
    pub phase: Phase,
    pub tab: TabType,
    pub wait_started_ms: u64,
    pub scroll: ScrollState,
    pub save_to_file: bool,
    pub single_tab: bool,
    pub sources: Seq<Seq<StockRecord>>,
    pub failure: Option<FetchError>,
    pub first_tab_error: Option<FetchError>,
}

impl View for FetchRun {
    type V = FetchRunModel;

    open spec fn view(&self) -> FetchRunModel {
        FetchRunModel {
            phase: self.phase,
            tab: self.tab,
            wait_started_ms: self.wait_started_ms,
            scroll: self.scroll,
            save_to_file: self.save_to_file,
            single_tab: self.single_tab,
            sources: self.sources.deep_view(),
            failure: self.failure,
            first_tab_error: self.first_tab_error,
        }
    }
}

/// The milliseconds from `start` to `now`; zero where the clock went backwards.
pub open spec fn elapsed(now_ms: u64, start_ms: u64) -> u64 {
    if now_ms >= start_ms {
        (now_ms - start_ms) as u64
    } else {
        0
    }
}

/// A run over all tabs that has just been started: it waits for the page to open.
pub open spec fn started(save_to_file: bool) -> FetchRunModel {
    FetchRunModel {
        phase: Phase::Navigating,
        tab: TabType::order()[0],
        wait_started_ms: 0,
        scroll: ScrollState::start(),
        save_to_file,
        single_tab: false,
        sources: Seq::empty(),
        failure: None,
        first_tab_error: None,
    }
}

/// A run for prices that has just been started: it visits the first tab only
/// and writes no snapshot.
pub open spec fn started_for_prices() -> FetchRunModel {
    FetchRunModel { single_tab: true, ..started(false) }
}

/// The run ends at once with the failure `error`.
pub open spec fn abort(m: FetchRunModel, error: FetchError) -> (FetchRunModel, Command) {
    (FetchRunModel { phase: Phase::Finished, failure: Some(error), ..m }, Command::Complete)
}

/// The run turns to `tab`.
pub open spec fn enter_tab(m: FetchRunModel, tab: TabType) -> (FetchRunModel, Command) {
    (FetchRunModel { phase: Phase::Activating, tab, ..m }, Command::Evaluate(Script::ClickTab(tab)))
}

/// All tabs have been visited. Where no tab gave records the run has failed,
/// with the failure of the first tab; else the result is written where that
/// was asked for, and the run is over.
pub open spec fn conclude(m: FetchRunModel) -> (FetchRunModel, Command) {
    if m.sources.len() == 0 {
        abort(
            m,
            match m.first_tab_error {
                Some(error) => error,
                None => FetchError::DriverFailure,
            },
        )
    } else if m.save_to_file {
        (FetchRunModel { phase: Phase::Persisting, ..m }, Command::Persist)
    } else {
        (FetchRunModel { phase: Phase::Finished, ..m }, Command::Complete)
    }
}

/// The run is done with its tab and turns to the next, or concludes where there
/// is none or the run is for one tab only.
pub open spec fn leave_tab(m: FetchRunModel) -> (FetchRunModel, Command) {
    if m.single_tab {
        conclude(m)
    } else {
        match m.tab.successor() {
            Some(tab) => enter_tab(m, tab),
            None => conclude(m),
        }
    }
}

/// The tab failed: it is skipped, and contributes nothing.
pub open spec fn fail_tab(m: FetchRunModel, error: FetchError) -> (FetchRunModel, Command) {
    leave_tab(
        FetchRunModel {
            first_tab_error: if m.first_tab_error is None {
                Some(error)
            } else {
                m.first_tab_error
            },
            ..m
        },
    )
}

/// The state of a run after an event that arrived at clock reading `now_ms`,
/// and the command that answers the event.
pub open spec fn next(m: FetchRunModel, event: EventModel, now_ms: u64) -> (
    FetchRunModel,
    Command,
) {
    match m.phase {
        Phase::Navigating => match event {
            EventModel::Navigated => (
                FetchRunModel { phase: Phase::PageLoading, wait_started_ms: now_ms, ..m },
                Command::Evaluate(Script::PageLoaded),
            ),
            _ => abort(m, FetchError::NavigationFailed),
        },
        Phase::PageLoading => match event {
            EventModel::Boolean(answer) => match wait_step(
                answer == Some(true),
                elapsed(now_ms, m.wait_started_ms),
                LOAD_TIMEOUT_MS,
            ) {
                WaitStep::Loaded => enter_tab(m, TabType::order()[0]),
                WaitStep::PollAgain => (
                    FetchRunModel { phase: Phase::PagePause, ..m },
                    Command::Sleep(LOAD_POLL_INTERVAL_MS),
                ),
                WaitStep::TimedOut => abort(m, FetchError::WaitTimeout),
            },
            _ => abort(m, FetchError::DriverFailure),
        },
        Phase::PagePause => match event {
            EventModel::Slept => (
                FetchRunModel { phase: Phase::PageLoading, ..m },
                Command::Evaluate(Script::PageLoaded),
            ),
            _ => abort(m, FetchError::DriverFailure),
        },
        Phase::Activating => match event {
            EventModel::Boolean(answer) => if answer == Some(true) {
                (
                    FetchRunModel { phase: Phase::LoadWaiting, wait_started_ms: now_ms, ..m },
                    Command::Evaluate(Script::TabLoaded),
                )
            } else {
                fail_tab(m, FetchError::TabNotFound)
            },
            _ => fail_tab(m, FetchError::DriverFailure),
        },
        Phase::LoadWaiting => match event {
            EventModel::Boolean(answer) => match wait_step(
                answer == Some(true),
                elapsed(now_ms, m.wait_started_ms),
                LOAD_TIMEOUT_MS,
            ) {
                WaitStep::Loaded => (
                    FetchRunModel { phase: Phase::Scrolling, scroll: ScrollState::start(), ..m },
                    Command::Evaluate(Script::ScrollToBottom),
                ),
                WaitStep::PollAgain => (
                    FetchRunModel { phase: Phase::LoadPause, ..m },
                    Command::Sleep(LOAD_POLL_INTERVAL_MS),
                ),
                WaitStep::TimedOut => fail_tab(m, FetchError::WaitTimeout),
            },
            _ => fail_tab(m, FetchError::DriverFailure),
        },
        Phase::LoadPause => match event {
            EventModel::Slept => (
                FetchRunModel { phase: Phase::LoadWaiting, ..m },
                Command::Evaluate(Script::TabLoaded),
            ),
            _ => fail_tab(m, FetchError::DriverFailure),
        },
        Phase::Scrolling => match event {
            EventModel::Boolean(_) => (
                FetchRunModel { phase: Phase::Counting, ..m },
                Command::Evaluate(Script::RowCount),
            ),
            _ => fail_tab(m, FetchError::DriverFailure),
        },
        Phase::Counting => match event {
            EventModel::Number(answer) => {
                let count = match answer {
                    Some(n) => n,
                    None => 0i64,
                };
                let scroll = m.scroll.after(count);
                match m.scroll.step_after(count) {
                    ScrollStep::Settled => (
                        FetchRunModel { phase: Phase::Extracting, scroll, ..m },
                        Command::Evaluate(Script::ExtractRows(m.tab)),
                    ),
                    ScrollStep::Pause => (
                        FetchRunModel { phase: Phase::ScrollPause, scroll, ..m },
                        Command::Sleep(SCROLL_POLL_INTERVAL_MS),
                    ),
                    ScrollStep::ScrollAgain => (
                        FetchRunModel { phase: Phase::Scrolling, scroll, ..m },
                        Command::Evaluate(Script::ScrollToBottom),
                    ),
                }
            },
            _ => fail_tab(m, FetchError::DriverFailure),
        },
        Phase::ScrollPause => match event {
            EventModel::Slept => (
                FetchRunModel { phase: Phase::Scrolling, ..m },
                Command::Evaluate(Script::ScrollToBottom),
            ),
            _ => fail_tab(m, FetchError::DriverFailure),
        },
        Phase::Extracting => match event {
            EventModel::Text(payload) => match json_text_rows(payload_text(payload)) {
                Some(rows) => leave_tab(
                    FetchRunModel { sources: m.sources.push(records_of_rows(rows, m.tab)), ..m },
                ),
                None => fail_tab(m, FetchError::MalformedPayload),
            },
            _ => fail_tab(m, FetchError::DriverFailure),
        },
        Phase::Persisting => (FetchRunModel { phase: Phase::Finished, ..m }, Command::Complete),
        Phase::Finished => (m, Command::Complete),
    }
}

/// What a run has to show for itself: the failure that ended it, or the
/// records of all tabs that were read, merged.
pub open spec fn outcome(m: FetchRunModel) -> Result<Seq<StockRecord>, FetchError> {
    match m.failure {
        Some(error) => Err(error),
        None => Ok(merged_sources(m.sources)),
    }
}

impl FetchRun {
    /// Starts a run. The first command is always [`Command::Navigate`].
    pub fn new(save_to_file: bool) -> (r: (FetchRun, Command))
        ensures
            r.0@ == started(save_to_file),
            r.1 == Command::Navigate,
    {
        let run = FetchRun {
            phase: Phase::Navigating,
            tab: TabType::first(),
            wait_started_ms: 0,
            scroll: ScrollState::new(),
            save_to_file,
            single_tab: false,
            sources: Vec::new(),
            failure: None,
            first_tab_error: None,
        };
        assert(run.sources.deep_view() =~= Seq::<Seq<StockRecord>>::empty());
        (run, Command::Navigate)
    }

    /// Starts a run for prices: it visits the first tab only, which reports the
    /// price of every security, and writes no snapshot.
    pub fn price_only() -> (r: (FetchRun, Command))
        ensures
            r.0@ == started_for_prices(),
            r.1 == Command::Navigate,
    {
        let run = FetchRun {
            phase: Phase::Navigating,
            tab: TabType::first(),
            wait_started_ms: 0,
            scroll: ScrollState::new(),
            save_to_file: false,
            single_tab: true,
            sources: Vec::new(),
            failure: None,
            first_tab_error: None,
        };
        assert(run.sources.deep_view() =~= Seq::<Seq<StockRecord>>::empty());
        (run, Command::Navigate)
    }

    /// Whether the run is over.
    pub fn is_finished(&self) -> (r: bool)
        ensures
            r == (self@.phase == Phase::Finished),
    {
        self.phase == Phase::Finished
    }

    /// The state of the current tab's activation cycle.
    pub fn tab_state(&self) -> (r: TabState)
        ensures
            r == self@.phase.tab_state(),
    {
        match self.phase {
            Phase::Navigating | Phase::PageLoading | Phase::PagePause => TabState::Inactive,
            Phase::Activating => TabState::Activating,
            Phase::LoadWaiting | Phase::LoadPause => TabState::LoadWaiting,
            Phase::Scrolling | Phase::Counting | Phase::ScrollPause => TabState::ScrollStabilizing,
            Phase::Extracting => TabState::Extracting,
            Phase::Persisting | Phase::Finished => TabState::Done,
        }
    }

    fn abort(&mut self, error: FetchError) -> (command: Command)
        ensures
            (final(self)@, command) == abort(old(self)@, error),
    {
        self.phase = Phase::Finished;
        self.failure = Some(error);
        Command::Complete
    }

    fn enter_tab(&mut self, tab: TabType) -> (command: Command)
        ensures
            (final(self)@, command) == enter_tab(old(self)@, tab),
    {
        self.phase = Phase::Activating;
        self.tab = tab;
        Command::Evaluate(Script::ClickTab(tab))
    }

    fn conclude(&mut self) -> (command: Command)
        ensures
            (final(self)@, command) == conclude(old(self)@),
    {
        if self.sources.len() == 0 {
            let error = match self.first_tab_error {
                Some(error) => error,
                None => FetchError::DriverFailure,
            };
            self.abort(error)
        } else if self.save_to_file {
            self.phase = Phase::Persisting;
            Command::Persist
        } else {
            self.phase = Phase::Finished;
            Command::Complete
        }
    }

    fn leave_tab(&mut self) -> (command: Command)
        ensures
            (final(self)@, command) == leave_tab(old(self)@),
    {
        if self.single_tab {
            self.conclude()
        } else {
            match self.tab.next() {
                Some(tab) => self.enter_tab(tab),
                None => self.conclude(),
            }
        }
    }

    fn fail_tab(&mut self, error: FetchError) -> (command: Command)
        ensures
            (final(self)@, command) == fail_tab(old(self)@, error),
    {
        if self.first_tab_error.is_none() {
            self.first_tab_error = Some(error);
        }
        self.leave_tab()
    }

    fn elapsed_since_wait_began(&self, now_ms: u64) -> (r: u64)
        ensures
            r == elapsed(now_ms, self.wait_started_ms),
    {
        if now_ms >= self.wait_started_ms {
            now_ms - self.wait_started_ms
        } else {
            0
        }
    }

    /// Takes the event that answers the last command, with the clock reading
    /// at which it arrived, and gives the next command.
    ///
    /// A failure of navigation or of the page's loading ends the run. A
    /// failure within a tab skips the tab: the run goes on with the next one.
    pub fn step(&mut self, event: Event, now_ms: u64) -> (command: Command)
        ensures
            (final(self)@, command) == next(old(self)@, event@, now_ms),
    {
        match self.phase {
            Phase::Navigating => match event {
                Event::Navigated => {
                    self.phase = Phase::PageLoading;
                    self.wait_started_ms = now_ms;
                    Command::Evaluate(Script::PageLoaded)
                },
                _ => self.abort(FetchError::NavigationFailed),
            },
            Phase::PageLoading => match event {
                Event::Boolean(answer) => {
                    let waited = self.elapsed_since_wait_began(now_ms);
                    match poll_loaded(answer, waited, LOAD_TIMEOUT_MS) {
                        WaitStep::Loaded => self.enter_tab(TabType::first()),
                        WaitStep::PollAgain => {
                            self.phase = Phase::PagePause;
                            Command::Sleep(LOAD_POLL_INTERVAL_MS)
                        },
                        WaitStep::TimedOut => self.abort(FetchError::WaitTimeout),
                    }
                },
                _ => self.abort(FetchError::DriverFailure),
            },
            Phase::PagePause => match event {
                Event::Slept => {
                    self.phase = Phase::PageLoading;
                    Command::Evaluate(Script::PageLoaded)
                },
                _ => self.abort(FetchError::DriverFailure),
            },
            Phase::Activating => match event {
                Event::Boolean(answer) => {
                    let clicked: bool = match answer {
                        Some(b) => b,
                        None => false,
                    };
                    if clicked {
                        self.phase = Phase::LoadWaiting;
                        self.wait_started_ms = now_ms;
                        Command::Evaluate(Script::TabLoaded)
                    } else {
                        self.fail_tab(FetchError::TabNotFound)
                    }
                },
                _ => self.fail_tab(FetchError::DriverFailure),
            },
            Phase::LoadWaiting => match event {
                Event::Boolean(answer) => {
                    let waited = self.elapsed_since_wait_began(now_ms);
                    match poll_loaded(answer, waited, LOAD_TIMEOUT_MS) {
                        WaitStep::Loaded => {
                            self.phase = Phase::Scrolling;
                            self.scroll = ScrollState::new();
                            Command::Evaluate(Script::ScrollToBottom)
                        },
                        WaitStep::PollAgain => {
                            self.phase = Phase::LoadPause;
                            Command::Sleep(LOAD_POLL_INTERVAL_MS)
                        },
                        WaitStep::TimedOut => self.fail_tab(FetchError::WaitTimeout),
                    }
                },
                _ => self.fail_tab(FetchError::DriverFailure),
            },
            Phase::LoadPause => match event {
                Event::Slept => {
                    self.phase = Phase::LoadWaiting;
                    Command::Evaluate(Script::TabLoaded)
                },
                _ => self.fail_tab(FetchError::DriverFailure),
            },
            Phase::Scrolling => match event {
                Event::Boolean(_) => {
                    self.phase = Phase::Counting;
                    Command::Evaluate(Script::RowCount)
                },
                _ => self.fail_tab(FetchError::DriverFailure),
            },
            Phase::Counting => match event {
                Event::Number(answer) => {
                    let count: i64 = match answer {
                        Some(n) => n,
                        None => 0,
                    };
                    let mut scroll = self.scroll;
                    let step = scroll.observe(count);
                    self.scroll = scroll;
                    match step {
                        ScrollStep::Settled => {
                            self.phase = Phase::Extracting;
                            Command::Evaluate(Script::ExtractRows(self.tab))
                        },
                        ScrollStep::Pause => {
                            self.phase = Phase::ScrollPause;
                            Command::Sleep(SCROLL_POLL_INTERVAL_MS)
                        },
                        ScrollStep::ScrollAgain => {
                            self.phase = Phase::Scrolling;
                            Command::Evaluate(Script::ScrollToBottom)
                        },
                    }
                },
                _ => self.fail_tab(FetchError::DriverFailure),
            },
            Phase::ScrollPause => match event {
                Event::Slept => {
                    self.phase = Phase::Scrolling;
                    Command::Evaluate(Script::ScrollToBottom)
                },
                _ => self.fail_tab(FetchError::DriverFailure),
            },
            Phase::Extracting => match event {
                Event::Text(payload) => {
                    let parsed = match &payload {
                        Some(text) => parse_tab_payload(Some(text.as_str()), self.tab),
                        None => parse_tab_payload(None, self.tab),
                    };
                    match parsed {
                        Ok(records) => {
                            let ghost before = self.sources.deep_view();
                            let ghost model = records.deep_view();
                            self.sources.push(records);
                            assert(self.sources.deep_view() =~= before.push(model));
                            self.leave_tab()
                        },
                        Err(_) => self.fail_tab(FetchError::MalformedPayload),
                    }
                },
                _ => self.fail_tab(FetchError::DriverFailure),
            },
            Phase::Persisting => {
                self.phase = Phase::Finished;
                Command::Complete
            },
            Phase::Finished => Command::Complete,
        }
    }

    /// Ends the run and gives its outcome: the failure that ended it, or the
    /// merged records of the tabs that were read.
    pub fn finish(self) -> (r: Result<Vec<StockData>, FetchError>)
        ensures
            match r {
                Ok(records) => outcome(self@) == Ok::<Seq<StockRecord>, FetchError>(
                    records.deep_view(),
                ),
                Err(error) => outcome(self@) == Err::<Seq<StockRecord>, FetchError>(error),
            },
    {
        match self.failure {
            Some(error) => Err(error),
            None => Ok(merge_stock_data_sources(self.sources.as_slice())),
        }
    }
}

/// A failure to open the page ends the run with `NavigationFailed`, whatever
/// the event that reports it.
pub proof fn lemma_navigation_failure_aborts(m: FetchRunModel, event: EventModel, now_ms: u64)
    requires
        m.phase == Phase::Navigating,
        event != EventModel::Navigated,
    ensures
        next(m, event, now_ms).0.phase == Phase::Finished,
        next(m, event, now_ms).1 == Command::Complete,
        outcome(next(m, event, now_ms).0) == Err::<Seq<StockRecord>, FetchError>(
            FetchError::NavigationFailed,
        ),
{
}

/// A tab whose button the page does not have fails with `TabNotFound`: the run
/// notes the failure, unless an earlier tab failed, and leaves the tab.
pub proof fn lemma_missing_button_is_tab_not_found(
    m: FetchRunModel,
    answer: Option<bool>,
    now_ms: u64,
)
    requires
        m.phase == Phase::Activating,
        answer != Some(true),
    ensures
        next(m, EventModel::Boolean(answer), now_ms) == fail_tab(m, FetchError::TabNotFound),
        m.first_tab_error is None ==> next(
            m,
            EventModel::Boolean(answer),
            now_ms,
        ).0.first_tab_error == Some(FetchError::TabNotFound),
{
}

/// A tab that has not finished loading when more than [`LOAD_TIMEOUT_MS`] have
/// passed since the wait began fails with `WaitTimeout`; until then the run
/// sleeps for [`LOAD_POLL_INTERVAL_MS`] and asks again.
pub proof fn lemma_load_wait_times_out(m: FetchRunModel, answer: Option<bool>, now_ms: u64)
    requires
        m.phase == Phase::LoadWaiting,
        answer != Some(true),
    ensures
        elapsed(now_ms, m.wait_started_ms) > LOAD_TIMEOUT_MS ==> next(
            m,
            EventModel::Boolean(answer),
            now_ms,
        ) == fail_tab(m, FetchError::WaitTimeout),
        elapsed(now_ms, m.wait_started_ms) <= LOAD_TIMEOUT_MS ==> next(
            m,
            EventModel::Boolean(answer),
            now_ms,
        ) == (FetchRunModel { phase: Phase::LoadPause, ..m }, Command::Sleep(LOAD_POLL_INTERVAL_MS)),
{
}

/// A failure of the driver within a tab is recovered locally: the tab
/// contributes nothing, and the run turns to the next tab where there is one.
pub proof fn lemma_tab_failure_is_skipped(m: FetchRunModel, now_ms: u64)
    requires
        m.phase.in_tab(),
    ensures
        next(m, EventModel::Failed, now_ms).0.sources == m.sources,
        !m.single_tab && m.tab.successor() is Some ==> {
            &&& next(m, EventModel::Failed, now_ms).0.phase == Phase::Activating
            &&& next(m, EventModel::Failed, now_ms).0.tab == m.tab.successor()->0
            &&& next(m, EventModel::Failed, now_ms).0.failure == m.failure
        },
{
}

/// A run that has read at least one tab does not fail because other tabs did:
/// a step never sets a failure once records are there, save by aborting before
/// the first tab.
pub proof fn lemma_partial_data_is_success(m: FetchRunModel, event: EventModel, now_ms: u64)
    requires
        m.phase.in_tab(),
        m.failure is None,
        m.sources.len() > 0,
    ensures
        next(m, event, now_ms).0.failure is None,
        next(m, event, now_ms).0.sources.len() > 0,
{
}

/// Once finished, a run stays as it is.
pub proof fn lemma_finished_is_final(m: FetchRunModel, event: EventModel, now_ms: u64)
    requires
        m.phase == Phase::Finished,
    ensures
        next(m, event, now_ms) == (m, Command::Complete),
{
}

} // verus!
