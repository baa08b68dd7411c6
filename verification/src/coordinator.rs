//! The fetch lifecycle: one authoritative state that admits at most one fetch
//! at a time, keeps the result of the last fetch and a short-lived table of
//! prices, and answers queries about them.
//!
//! Every operation is one short step on the state. The caller holds the state
//! behind its lock, does the outside work (setting up and closing the driver
//! session, running the extraction) between two steps, and never while it
//! holds the lock.

use crate::error::FetchError;
use crate::merge::{find_code, holds_code, position_of};
use crate::models::{StockData, StockRecord};
use crate::numbers::Decimal;
use crate::text::{chars_of, spells};
use vstd::prelude::*;

verus! {

/// Seconds for which a table of prices is served before it is fetched anew.
pub const PRICE_TTL_SECONDS: i64 = 60;

/// The lifecycle state.
#[derive(Clone, Copy, Debug, PartialEq, Eq, Structural, Hash)]
pub enum FetchState {
    /// No driver session exists.
    Idle,
    /// A driver session is being set up.
    Initializing,
    /// A driver session exists and no fetch is running.
    Ready,
    /// A fetch is running.
    Fetching,
    /// The driver session is being released.
    Closing,
}

/// The price of one security.
#[derive(Debug)]
pub struct PriceEntry {
    pub code: String,
    pub price: Decimal,
}

/// The mathematical content of a [`PriceEntry`].
pub ghost struct PriceQuote {
    pub code: Seq<char>,
    pub price: int,
}

impl View for PriceEntry {
    type V = PriceQuote;

    open spec fn view(&self) -> PriceQuote {
        PriceQuote { code: self.code@, price: self.price@ }
    }
}

impl DeepView for PriceEntry {
    type V = PriceQuote;

    open spec fn deep_view(&self) -> PriceQuote {
        self@
    }
}

impl Clone for PriceEntry {
    fn clone(&self) -> (r: PriceEntry)
        ensures
            r@ == self@,
    {
        PriceEntry { code: self.code.clone(), price: self.price }
    }
}

/// What a fetch was asked to do, handed out when the fetch is admitted.
#[derive(Clone, Copy, Debug, PartialEq, Eq, Structural)]
pub struct FetchTicket {
    pub save_to_file: bool,
}

/// A snapshot of the lifecycle state.
#[derive(Clone, Copy, Debug, PartialEq, Eq, Structural)]
pub struct Status {
    pub initialized: bool,
    pub fetching: bool,
    pub last_fetch: Option<i64>,
    pub record_count: usize,
}

/// How a request for prices is to be served.
#[derive(Clone, Copy, Debug, PartialEq, Eq, Structural)]
pub enum PricePlan {
    /// The table of prices is fresh: answer from it.
    Cached,
    /// The table is empty or too old: fetch prices, store them, then answer.
    Refresh,
}

/// The answer to a query for records.
#[derive(Debug)]
pub enum DataAnswer {
    /// No data has been fetched, or no record has the code asked for.
    NotFound,
    /// The record of the code asked for.
    One(StockData),
    /// All records.
    All(Vec<StockData>),
}

/// The answer to a query for prices.
#[derive(Debug)]
pub enum PriceAnswer {
    /// No price is known for the code asked for.
    NotFound,
    /// The price of the code asked for.
    One(Decimal),
    /// All prices.
    All(Vec<PriceEntry>),
}

/// The lifecycle state with what it guards.
#[derive(Debug)]
pub struct StockDataState {
    /// Where the lifecycle stands.
    pub state: FetchState,
    /// The result of the last fetch; empty while a fetch runs.
    pub fetched_data: Vec<StockData>,
    /// When the last fetch was admitted, in seconds since the epoch.
    pub fetch_data_last_fetch: Option<i64>,
    /// Why the last fetch or price refresh failed, if it did.
    pub last_error: Option<FetchError>,
    /// The table of prices.
    pub fetched_price: Vec<PriceEntry>,
    /// When the table of prices was stored, in seconds since the epoch.
    pub fetched_price_last_fetch: Option<i64>,
}

/// The mathematical content of a [`StockDataState`].
pub ghost struct Lifecycle {
    pub state: FetchState,
    pub records: Seq<StockRecord>,
    pub last_fetch: Option<i64>,
    pub last_error: Option<FetchError>,
    pub prices: Seq<PriceQuote>,
    pub prices_at: Option<i64>,
}

impl View for StockDataState {
    type V = Lifecycle;

    open spec fn view(&self) -> Lifecycle {
        Lifecycle {
            state: self.state,
            records: self.fetched_data.deep_view(),
            last_fetch: self.fetch_data_last_fetch,
            last_error: self.last_error,
            prices: self.fetched_price.deep_view(),
            prices_at: self.fetched_price_last_fetch,
        }
    }
}

/// The prices that records report: code and price of each, in order.
pub open spec fn quotes_of(records: Seq<StockRecord>) -> Seq<PriceQuote> {
    Seq::new(records.len(), |i: int| PriceQuote { code: records[i].code, price: records[i].price })
}

/// The position of the first quote for `code`, or the number of quotes where
/// there is none.
pub open spec fn quote_position(quotes: Seq<PriceQuote>, code: Seq<char>) -> int
    decreases quotes.len(),
{
    if quotes.len() == 0 {
        0
    } else if quotes[0].code == code {
        0
    } else {
        1 + quote_position(quotes.drop_first(), code)
    }
}

impl Lifecycle {
    /// The lifecycle before anything has happened.
    pub open spec fn initial() -> Lifecycle {
        Lifecycle {
            state: FetchState::Idle,
            records: Seq::empty(),
            last_fetch: None,
            last_error: None,
            prices: Seq::empty(),
            prices_at: None,
        }
    }

    /// Why a fetch cannot start now, if it cannot: one is running, or there is
    /// no session to run it in.
    pub open spec fn refusal(self) -> Option<FetchError> {
        match self.state {
            FetchState::Fetching => Some(FetchError::FetchInProgress),
            FetchState::Ready => None,
            _ => Some(FetchError::NotInitialized),
        }
    }

    /// `init`: from `Idle` the session is being set up; in every other state it
    /// is refused with `AlreadyInitialized` and nothing changes.
    pub open spec fn begin_init(self) -> (Lifecycle, Result<(), FetchError>) {
        if self.state == FetchState::Idle {
            (Lifecycle { state: FetchState::Initializing, ..self }, Ok(()))
        } else {
            (self, Err(FetchError::AlreadyInitialized))
        }
    }

    /// The end of `init`: `Ready` where the session was set up, back to `Idle`
    /// where it was not; nothing changes unless a session was being set up.
    pub open spec fn finish_init(self, connected: bool) -> Lifecycle {
        if self.state != FetchState::Initializing {
            self
        } else if connected {
            Lifecycle { state: FetchState::Ready, ..self }
        } else {
            Lifecycle { state: FetchState::Idle, ..self }
        }
    }

    /// `fetch`: from `Ready` the fetch is admitted, the stored result is
    /// cleared and the time is noted; else it is refused and nothing changes.
    pub open spec fn fetch(self, save_to_file: bool, now: i64) -> (
        Lifecycle,
        Result<FetchTicket, FetchError>,
    ) {
        match self.refusal() {
            Some(error) => (self, Err(error)),
            None => (
                Lifecycle {
                    state: FetchState::Fetching,
                    records: Seq::empty(),
                    last_fetch: Some(now),
                    ..self
                },
                Ok(FetchTicket { save_to_file }),
            ),
        }
    }

    /// The end of a fetch: back to `Ready` whether it succeeded or failed; its
    /// records are stored where it succeeded, its failure where it failed.
    /// Nothing changes unless a fetch was running.
    pub open spec fn complete_fetch(
        self,
        result: Result<Seq<StockRecord>, FetchError>,
    ) -> Lifecycle {
        if self.state != FetchState::Fetching {
            self
        } else {
            match result {
                Ok(records) => Lifecycle {
                    state: FetchState::Ready,
                    records,
                    last_error: None,
                    ..self
                },
                Err(error) => Lifecycle {
                    state: FetchState::Ready,
                    last_error: Some(error),
                    ..self
                },
            }
        }
    }

    /// `close`: refused with `CloseWhileFetching` while a fetch runs and with
    /// `NotInitialized` where there is no session, and nothing changes; from
    /// `Ready` the session is being released.
    pub open spec fn begin_close(self) -> (Lifecycle, Result<(), FetchError>) {
        match self.state {
            FetchState::Fetching => (self, Err(FetchError::CloseWhileFetching)),
            FetchState::Ready => (Lifecycle { state: FetchState::Closing, ..self }, Ok(())),
            _ => (self, Err(FetchError::NotInitialized)),
        }
    }

    /// The end of `close`: `Idle`; nothing changes unless the session was being
    /// released.
    pub open spec fn finish_close(self) -> Lifecycle {
        if self.state == FetchState::Closing {
            Lifecycle { state: FetchState::Idle, ..self }
        } else {
            self
        }
    }

    /// The snapshot that `status` gives.
    pub open spec fn status(self) -> Status {
        Status {
            initialized: self.state == FetchState::Ready || self.state == FetchState::Fetching,
            fetching: self.state == FetchState::Fetching,
            last_fetch: self.last_fetch,
            record_count: self.records.len() as usize,
        }
    }

    /// Whether the table of prices can be served at time `now`: it is not
    /// empty and not older than [`PRICE_TTL_SECONDS`].
    pub open spec fn prices_fresh(self, now: i64) -> bool {
        self.prices.len() > 0 && self.prices_at is Some && now - self.prices_at->0
            <= PRICE_TTL_SECONDS
    }

    /// A request for prices: refused like a fetch; served from the table where
    /// that is fresh; else a refresh is admitted, which counts as a fetch.
    pub open spec fn begin_price(self, now: i64) -> (Lifecycle, Result<PricePlan, FetchError>) {
        match self.refusal() {
            Some(error) => (self, Err(error)),
            None => if self.prices_fresh(now) {
                (self, Ok(PricePlan::Cached))
            } else {
                (Lifecycle { state: FetchState::Fetching, ..self }, Ok(PricePlan::Refresh))
            },
        }
    }

    /// The end of a price refresh: back to `Ready`; the prices are stored with
    /// the time where it succeeded, the failure where it failed. Nothing
    /// changes unless a fetch was running.
    pub open spec fn finish_price(
        self,
        result: Result<Seq<PriceQuote>, FetchError>,
        now: i64,
    ) -> Lifecycle {
        if self.state != FetchState::Fetching {
            self
        } else {
            match result {
                Ok(prices) => Lifecycle {
                    state: FetchState::Ready,
                    prices,
                    prices_at: Some(now),
                    ..self
                },
                Err(error) => Lifecycle {
                    state: FetchState::Ready,
                    last_error: Some(error),
                    ..self
                },
            }
        }
    }
}

/// Whether `answer` is the answer to a query for records: nothing where no
/// data is stored; all records where no code is asked for; else the first
/// record with the code, or nothing where no record has it.
pub open spec fn answers_data(
    answer: DataAnswer,
    records: Seq<StockRecord>,
    code: Option<Seq<char>>,
) -> bool {
    if records.len() == 0 {
        answer is NotFound
    } else {
        match code {
            None => answer is All && answer->All_0.deep_view() == records,
            Some(c) => if holds_code(records, c) {
                answer is One && answer->One_0@ == records[position_of(records, c)]
            } else {
                answer is NotFound
            },
        }
    }
}

/// Whether `answer` is the answer to a query for prices: all prices where no
/// code is asked for; else the first price for the code, or nothing where the
/// table has none.
pub open spec fn answers_price(
    answer: PriceAnswer,
    prices: Seq<PriceQuote>,
    code: Option<Seq<char>>,
) -> bool {
    match code {
        None => answer is All && answer->All_0.deep_view() == prices,
        Some(c) => if quote_position(prices, c) < prices.len() {
            answer is One && answer->One_0@ == prices[quote_position(prices, c)].price
        } else {
            answer is NotFound
        },
    }
}

/// No quote before position `k` is for `code`, and position `k` is the end or
/// holds a quote for `code`: `k` is the position of `code`.
pub proof fn lemma_quote_position(quotes: Seq<PriceQuote>, code: Seq<char>, k: int)
    requires
        0 <= k <= quotes.len(),
        forall|i: int| 0 <= i < k ==> (#[trigger] quotes[i]).code != code,
        k < quotes.len() ==> quotes[k].code == code,
    ensures
        quote_position(quotes, code) == k,
    decreases k,
{
    if k > 0 {
        let t = quotes.drop_first();
        assert forall|i: int| 0 <= i < k - 1 implies (#[trigger] t[i]).code != code by {
            assert(t[i] == quotes[i + 1]);
        }
        lemma_quote_position(t, code, k - 1);
    }
}

/// A copy of the records.
pub fn clone_records(records: &Vec<StockData>) -> (r: Vec<StockData>)
    ensures
        r.deep_view() == records.deep_view(),
{
    let mut out: Vec<StockData> = Vec::new();
    let mut i: usize = 0;
    while i < records.len()
        invariant
            i <= records.len(),
            out.len() == i,
            forall|j: int| 0 <= j < i ==> out@[j]@ == records@[j]@,
        decreases records.len() - i,
    {
        out.push(records[i].clone());
        i += 1;
    }
    assert(out.deep_view() =~= records.deep_view());
    out
}

/// A copy of the prices.
pub fn clone_prices(prices: &Vec<PriceEntry>) -> (r: Vec<PriceEntry>)
    ensures
        r.deep_view() == prices.deep_view(),
{
    let mut out: Vec<PriceEntry> = Vec::new();
    let mut i: usize = 0;
    while i < prices.len()
        invariant
            i <= prices.len(),
            out.len() == i,
            forall|j: int| 0 <= j < i ==> out@[j]@ == prices@[j]@,
        decreases prices.len() - i,
    {
        out.push(prices[i].clone());
        i += 1;
    }
    assert(out.deep_view() =~= prices.deep_view());
    out
}

/// The prices that the records report.
pub fn prices_of(records: &Vec<StockData>) -> (r: Vec<PriceEntry>)
    ensures
        r.deep_view() == quotes_of(records.deep_view()),
{
    let mut out: Vec<PriceEntry> = Vec::new();
    let mut i: usize = 0;
    while i < records.len()
        invariant
            i <= records.len(),
            out.len() == i,
            forall|j: int|
                0 <= j < i ==> out@[j]@ == (PriceQuote {
                    code: records@[j]@.code,
                    price: records@[j]@.price,
                }),
        decreases records.len() - i,
    {
        out.push(PriceEntry { code: records[i].code.clone(), price: records[i].price });
        i += 1;
    }
    assert(out.deep_view() =~= quotes_of(records.deep_view()));
    out
}

impl StockDataState {
    /// The state before anything has happened: no session, no data.
    pub fn new() -> (r: StockDataState)
        ensures
            r@ == Lifecycle::initial(),
    {
        let fresh = StockDataState {
            state: FetchState::Idle,
            fetched_data: Vec::new(),
            fetch_data_last_fetch: None,
            last_error: None,
            fetched_price: Vec::new(),
            fetched_price_last_fetch: None,
        };
        assert(fresh.fetched_data.deep_view() =~= Seq::<StockRecord>::empty());
        assert(fresh.fetched_price.deep_view() =~= Seq::<PriceQuote>::empty());
        fresh
    }

    fn refusal(&self) -> (r: Option<FetchError>)
        ensures
            r == self@.refusal(),
    {
        match self.state {
            FetchState::Fetching => Some(FetchError::FetchInProgress),
            FetchState::Ready => None,
            _ => Some(FetchError::NotInitialized),
        }
    }

    /// Admits the setting up of a driver session, from `Idle` only.
    pub fn begin_init(&mut self) -> (r: Result<(), FetchError>)
        ensures
            (final(self)@, r) == old(self)@.begin_init(),
    {
        if self.state == FetchState::Idle {
            self.state = FetchState::Initializing;
            Ok(())
        } else {
            Err(FetchError::AlreadyInitialized)
        }
    }

    /// Notes how the setting up of the driver session ended.
    pub fn finish_init(&mut self, connected: bool)
        ensures
            final(self)@ == old(self)@.finish_init(connected),
    {
        if self.state == FetchState::Initializing {
            if connected {
                self.state = FetchState::Ready;
            } else {
                self.state = FetchState::Idle;
            }
        }
    }

    /// Admits a fetch, at time `now`. The caller starts the extraction run
    /// after this has returned, and reports its end with
    /// [`StockDataState::complete_fetch`].
    pub fn fetch(&mut self, save_to_file: bool, now: i64) -> (r: Result<FetchTicket, FetchError>)
        ensures
            (final(self)@, r) == old(self)@.fetch(save_to_file, now),
    {
        match self.refusal() {
            Some(error) => Err(error),
            None => {
                self.state = FetchState::Fetching;
                self.fetched_data = Vec::new();
                self.fetch_data_last_fetch = Some(now);
                assert(self.fetched_data.deep_view() =~= Seq::<StockRecord>::empty());
                Ok(FetchTicket { save_to_file })
            },
        }
    }

    /// Notes the end of a fetch and stores what it gave.
    pub fn complete_fetch(&mut self, result: Result<Vec<StockData>, FetchError>)
        ensures
            final(self)@ == old(self)@.complete_fetch(
                match result {
                    Ok(records) => Ok(records.deep_view()),
                    Err(error) => Err(error),
                },
            ),
    {
        if self.state == FetchState::Fetching {
            self.state = FetchState::Ready;
            match result {
                Ok(records) => {
                    self.fetched_data = records;
                    self.last_error = None;
                },
                Err(error) => {
                    self.last_error = Some(error);
                },
            }
        }
    }

    /// Admits the release of the driver session, from `Ready` only.
    pub fn begin_close(&mut self) -> (r: Result<(), FetchError>)
        ensures
            (final(self)@, r) == old(self)@.begin_close(),
    {
        match self.state {
            FetchState::Fetching => Err(FetchError::CloseWhileFetching),
            FetchState::Ready => {
                self.state = FetchState::Closing;
                Ok(())
            },
            _ => Err(FetchError::NotInitialized),
        }
    }

    /// Notes that the driver session has been released.
    pub fn finish_close(&mut self)
        ensures
            final(self)@ == old(self)@.finish_close(),
    {
        if self.state == FetchState::Closing {
            self.state = FetchState::Idle;
        }
    }

    /// A snapshot of the lifecycle.
    pub fn status(&self) -> (r: Status)
        ensures
            r == self@.status(),
    {
        Status {
            initialized: self.state == FetchState::Ready || self.state == FetchState::Fetching,
            fetching: self.state == FetchState::Fetching,
            last_fetch: self.fetch_data_last_fetch,
            record_count: self.fetched_data.len(),
        }
    }

    /// The stored records: all of them, or the one with the code asked for.
    pub fn data(&self, code: Option<&str>) -> (r: DataAnswer)
        ensures
            answers_data(r, self@.records, code.deep_view()),
    {
        if self.fetched_data.len() == 0 {
            return DataAnswer::NotFound;
        }
        match code {
            None => DataAnswer::All(clone_records(&self.fetched_data)),
            Some(c) => {
                let k: usize = find_code(&self.fetched_data, c);
                if k < self.fetched_data.len() {
                    DataAnswer::One(self.fetched_data[k].clone())
                } else {
                    DataAnswer::NotFound
                }
            },
        }
    }

    fn prices_fresh(&self, now: i64) -> (r: bool)
        ensures
            r == self@.prices_fresh(now),
    {
        match self.fetched_price_last_fetch {
            Some(at) => self.fetched_price.len() > 0 && now as i128 - at as i128
                <= PRICE_TTL_SECONDS as i128,
            None => false,
        }
    }

    /// Admits a request for prices at time `now` and says how to serve it.
    /// After [`PricePlan::Refresh`] the caller fetches prices and reports the
    /// end with [`StockDataState::finish_price`] before it asks for the answer.
    pub fn begin_price(&mut self, now: i64) -> (r: Result<PricePlan, FetchError>)
        ensures
            (final(self)@, r) == old(self)@.begin_price(now),
    {
        match self.refusal() {
            Some(error) => Err(error),
            None => {
                if self.prices_fresh(now) {
                    Ok(PricePlan::Cached)
                } else {
                    self.state = FetchState::Fetching;
                    Ok(PricePlan::Refresh)
                }
            },
        }
    }

    /// Notes the end of a price refresh at time `now` and stores what it gave.
    pub fn finish_price(&mut self, result: Result<Vec<PriceEntry>, FetchError>, now: i64)
        ensures
            final(self)@ == old(self)@.finish_price(
                match result {
                    Ok(prices) => Ok(prices.deep_view()),
                    Err(error) => Err(error),
                },
                now,
            ),
    {
        if self.state == FetchState::Fetching {
            self.state = FetchState::Ready;
            match result {
                Ok(prices) => {
                    self.fetched_price = prices;
                    self.fetched_price_last_fetch = Some(now);
                },
                Err(error) => {
                    self.last_error = Some(error);
                },
            }
        }
    }

    /// The stored prices: all of them, or the one of the code asked for.
    pub fn get_price(&self, code: Option<&str>) -> (r: PriceAnswer)
        ensures
            answers_price(r, self@.prices, code.deep_view()),
    {
        match code {
            None => PriceAnswer::All(clone_prices(&self.fetched_price)),
            Some(c) => {
                let n: usize = self.fetched_price.len();
                let wanted = chars_of(c);
                let mut k: usize = 0;
                while k < n && !spells(&wanted, self.fetched_price[k].code.as_str())
                    invariant
                        k <= n == self.fetched_price.len(),
                        wanted@ == c@,
                        forall|i: int|
                            0 <= i < k ==> (#[trigger] self.fetched_price.deep_view()[i]).code
                                != c@,
                    decreases n - k,
                {
                    k += 1;
                }
                proof {
                    lemma_quote_position(self.fetched_price.deep_view(), c@, k as int);
                }
                if k < n {
                    PriceAnswer::One(self.fetched_price[k].price)
                } else {
                    PriceAnswer::NotFound
                }
            },
        }
    }
}

/// Single flight: of two fetches without a completion between them, the first
/// is admitted where the lifecycle is `Ready`, and the second is refused with
/// `FetchInProgress` and changes nothing.
pub proof fn lemma_single_flight(
    start: Lifecycle,
    first_save: bool,
    first_now: i64,
    second_save: bool,
    second_now: i64,
)
    requires
        start.state == FetchState::Ready,
    ensures
        start.fetch(first_save, first_now).1 == Ok::<FetchTicket, FetchError>(
            FetchTicket { save_to_file: first_save },
        ),
        start.fetch(first_save, first_now).0.fetch(second_save, second_now) == (
            start.fetch(first_save, first_now).0,
            Err::<FetchTicket, FetchError>(FetchError::FetchInProgress),
        ),
{
}

/// While a fetch runs no further fetch, price refresh or close is admitted,
/// and none of them changes anything.
pub proof fn lemma_fetching_refuses(s: Lifecycle, save_to_file: bool, now: i64)
    requires
        s.state == FetchState::Fetching,
    ensures
        s.fetch(save_to_file, now) == (
            s,
            Err::<FetchTicket, FetchError>(FetchError::FetchInProgress),
        ),
        s.begin_price(now) == (s, Err::<PricePlan, FetchError>(FetchError::FetchInProgress)),
        s.begin_close() == (s, Err::<(), FetchError>(FetchError::CloseWhileFetching)),
        s.begin_init() == (s, Err::<(), FetchError>(FetchError::AlreadyInitialized)),
{
}

/// Lifecycle guard: `close` while a fetch runs is refused with
/// `CloseWhileFetching` and leaves the state unchanged.
pub proof fn lemma_close_guard(s: Lifecycle)
    requires
        s.state == FetchState::Fetching,
    ensures
        s.begin_close().1 == Err::<(), FetchError>(FetchError::CloseWhileFetching),
        s.begin_close().0 == s,
{
}

/// A fetch that was admitted ends in `Ready`, whether it succeeded or failed.
pub proof fn lemma_fetch_returns_to_ready(
    start: Lifecycle,
    save_to_file: bool,
    now: i64,
    result: Result<Seq<StockRecord>, FetchError>,
)
    requires
        start.fetch(save_to_file, now).1 is Ok,
    ensures
        start.fetch(save_to_file, now).0.state == FetchState::Fetching,
        start.fetch(save_to_file, now).0.records.len() == 0,
        start.fetch(save_to_file, now).0.complete_fetch(result).state == FetchState::Ready,
        result is Ok ==> start.fetch(save_to_file, now).0.complete_fetch(result).records
            == result->Ok_0,
{
}

} // verus!
