//! The values that cross the boundary to callers: requests, responses and
//! the error that carries a message.

use crate::coordinator::FetchTicket;
use crate::error::FetchError;
use crate::text::{number_text, number_to_text};
use vstd::prelude::*;
use vstd::string::StringExecFns;

verus! {

/// Seconds in a minute, an hour and a day.
pub const SECONDS_PER_MINUTE: u64 = 60;

pub const SECONDS_PER_HOUR: u64 = 3_600;

pub const SECONDS_PER_DAY: u64 = 86_400;

/// A request to fetch.
#[derive(Debug, Clone, Copy)]
pub struct FetchRequest {
    /// Whether the result is to be written to a snapshot file; no, where the
    /// request does not say.
    pub save_to_file: Option<bool>,
}

impl FetchRequest {
    /// Whether the result is to be written to a snapshot file.
    pub fn wants_file(&self) -> (r: bool)
        ensures
            r == (self.save_to_file == Some(true)),
    {
        match self.save_to_file {
            Some(b) => b,
            None => false,
        }
    }
}

/// The acknowledgement of a request to fetch. It says whether the fetch was
/// admitted, never what it gave: `count` is always zero.
#[derive(Debug)]
pub struct FetchResponse {
    pub success: bool,
    pub message: String,
    pub count: usize,
}

/// The message that tells a user that a fetch was admitted.
pub const FETCH_STARTED_MESSAGE: &'static str = "数据抓取任务已启动";

impl FetchResponse {
    /// The acknowledgement of a fetch that was admitted or refused.
    pub fn acknowledge(admission: &Result<FetchTicket, FetchError>) -> (r: FetchResponse)
        ensures
            r.success == admission is Ok,
            r.count == 0,
            r.message@ == match *admission {
                Ok(_) => FETCH_STARTED_MESSAGE@,
                Err(error) => error.message_text(),
            },
    {
        match admission {
            Ok(_) => FetchResponse {
                success: true,
                message: FETCH_STARTED_MESSAGE.to_owned(),
                count: 0,
            },
            Err(error) => FetchResponse {
                success: false,
                message: error.message().to_owned(),
                count: 0,
            },
        }
    }
}

/// A failure as a message for the user.
#[derive(Debug)]
pub struct ServerError(pub String);

impl ServerError {
    /// The error with the given message.
    pub fn new(message: String) -> (r: ServerError)
        ensures
            r.0 == message,
    {
        ServerError(message)
    }

    /// The error that tells of `error`.
    pub fn from_error(error: FetchError) -> (r: ServerError)
        ensures
            r.0@ == error.message_text(),
    {
        ServerError(error.message().to_owned())
    }

    /// The message.
    pub fn to_text(&self) -> (r: String)
        ensures
            r@ == self.0@,
    {
        self.0.clone()
    }
}

/// What a server says of itself.
#[derive(Debug)]
pub struct ServerStatus {
    pub status: String,
    pub uptime: String,
    pub version: String,
}

/// The word by which a server says that it runs.
pub const RUNNING: &'static str = "running";

/// A running time in whole days, hours of the day and minutes of the hour.
#[derive(Debug, Clone, Copy, PartialEq, Eq, Structural)]
pub struct Uptime {
    pub days: u64,
    pub hours: u64,
    pub minutes: u64,
}

/// The running time of `seconds`, split into whole days, hours of the day and
/// minutes of the hour.
pub open spec fn uptime_of(seconds: u64) -> Uptime {
    Uptime {
        days: seconds / SECONDS_PER_DAY,
        hours: ((seconds / SECONDS_PER_HOUR) % 24) as u64,
        minutes: ((seconds / SECONDS_PER_MINUTE) % 60) as u64,
    }
}

/// A running time in words.
pub open spec fn uptime_text(uptime: Uptime) -> Seq<char> {
    number_text(uptime.days as nat) + " days, "@ + number_text(uptime.hours as nat) + " hours, "@
        + number_text(uptime.minutes as nat) + " minutes"@
}

/// Splits a running time of `seconds` into whole days, hours of the day and
/// minutes of the hour.
pub fn uptime_parts(seconds: u64) -> (r: Uptime)
    ensures
        r == uptime_of(seconds),
        r.hours < 24,
        r.minutes < 60,
{
    Uptime {
        days: seconds / SECONDS_PER_DAY,
        hours: (seconds / SECONDS_PER_HOUR) % 24,
        minutes: (seconds / SECONDS_PER_MINUTE) % 60,
    }
}

impl ServerStatus {
    /// The status of a server of the given version that has run for `seconds`.
    pub fn running(seconds: u64, version: String) -> (r: ServerStatus)
        ensures
            r.status@ == RUNNING@,
            r.uptime@ == uptime_text(uptime_of(seconds)),
            r.version == version,
    {
        let uptime = uptime_parts(seconds);
        let text = number_to_text(uptime.days).concat(" days, ").concat(
            number_to_text(uptime.hours).as_str(),
        ).concat(" hours, ").concat(number_to_text(uptime.minutes).as_str()).concat(" minutes");
        ServerStatus { status: RUNNING.to_owned(), uptime: text, version }
    }
}

/// The kind of a transaction in a portfolio.
#[derive(Debug, Clone, Copy, PartialEq, Eq, Structural, Hash)]
pub enum TransactionType {
    Buy,
    Sell,
}

/// The kind of a trading strategy.
#[derive(Debug, Clone, Copy, PartialEq, Eq, Structural, Hash)]
pub enum StrategyType {
    Momentum,
    MeanReversion,
    PairTrading,
    FactorModel,
    Custom,
}

/// What a strategy's signal says to do.
#[derive(Debug, Clone, Copy, PartialEq, Eq, Structural, Hash)]
pub enum SignalAction {
    Buy,
    Sell,
    Hold,
}

/// A request to remove the portfolio of the given name.
#[derive(Debug)]
pub struct RemovePortfolioRequest {
    pub name: String,
}

/// A request for the portfolio of the given name.
#[derive(Debug)]
pub struct QueryPortfolioRequest {
    pub name: String,
}

/// A request that names a strategy.
#[derive(Debug)]
pub struct StrategyRequest {
    pub name: String,
}

} // verus!
