//! Acquisition, parsing and merging of tabular market data.
//!
//! A screener page shows the same securities under several tabs, each with its
//! own columns. This library holds everything about fetching them that does
//! not touch the outside world:
//!
//! - [`text`] and [`numbers`] read decorated numeric text into fixed-point
//!   decimals and integers;
//! - [`tabs`], [`scripts`] and [`parser`] say which tabs there are, what is
//!   evaluated in the page, and how the rows that come back become records;
//! - [`models`] and [`merge`] hold the record of a security and reconcile the
//!   records of all tabs into one per security;
//! - [`scroll`] and [`scraper`] decide, step by step, what an extraction run
//!   does next;
//! - [`coordinator`] guards the lifecycle, so that at most one fetch runs;
//! - [`snapshot`], [`api`], [`error`], [`webdriver`] and [`ntfy`] hold the
//!   names, messages and values that the surrounding program needs;
//! - [`json`] is the boundary with the JSON library.
//!
//! The caller owns the driver session, the clock, the file system and the
//! network. It hands plain values in and carries out what comes back.

pub mod api;
pub mod coordinator;
pub mod error;
pub mod json;
pub mod merge;
pub mod models;
pub mod ntfy;
pub mod numbers;
pub mod parser;
pub mod scraper;
pub mod scripts;
pub mod scroll;
pub mod snapshot;
pub mod tabs;
pub mod text;
pub mod webdriver;
