//! Naming the snapshot files of fetched data.
//!
//! Every snapshot gets a file of its own, named after the local time at which
//! it is written. Nothing here reads the clock or touches the file system: the
//! caller says what time it is, creates the directory, says whether that
//! worked, and writes the file.

use crate::text::{number_text, number_to_text};
use vstd::prelude::*;
use vstd::string::StringExecFns;

verus! {

/// The directory that snapshots are written to.
pub const OUTPUT_DIR: &'static str = "output";

/// The directory that snapshots are written to where [`OUTPUT_DIR`] cannot be
/// had: the current directory.
pub const FALLBACK_DIR: &'static str = ".";

/// The first part of a snapshot's file name.
pub const SNAPSHOT_PREFIX: &'static str = "stock_data";

/// The extension of a snapshot's file name.
pub const SNAPSHOT_EXTENSION: &'static str = "json";

/// A moment of local time, as calendar and clock show it.
#[derive(Debug, Clone, Copy, PartialEq, Eq, Structural)]
pub struct LocalTime {
    pub year: i32,
    pub month: u8,
    pub day: u8,
    pub hour: u8,
    pub minute: u8,
    pub second: u8,
}

/// `k` zeros.
pub open spec fn zeros(k: nat) -> Seq<char> {
    Seq::new(k, |i: int| '0')
}

/// The digits of `n` in base ten, with zeros before them where they are fewer
/// than `width`.
pub open spec fn padded_text(n: nat, width: nat) -> Seq<char> {
    if number_text(n).len() >= width {
        number_text(n)
    } else {
        zeros((width - number_text(n).len()) as nat) + number_text(n)
    }
}

/// A year as a time stamp writes it: with four digits or more, and with its
/// sign where it lies before the year 0 or after the year 9999.
pub open spec fn year_text(year: int) -> Seq<char> {
    if 0 <= year <= 9999 {
        padded_text(year as nat, 4)
    } else if year > 9999 {
        "+"@ + padded_text(year as nat, 4)
    } else {
        "-"@ + padded_text((-year) as nat, 4)
    }
}

impl LocalTime {
    /// The time stamp of the moment: year, month, day, an underscore, hour,
    /// minute, second, each part but the year with two digits.
    pub open spec fn stamp_text(self) -> Seq<char> {
        year_text(self.year as int) + padded_text(self.month as nat, 2) + padded_text(
            self.day as nat,
            2,
        ) + "_"@ + padded_text(self.hour as nat, 2) + padded_text(self.minute as nat, 2)
            + padded_text(self.second as nat, 2)
    }
}

/// `extension` with a dot before it, unless it starts with one.
pub open spec fn dotted(extension: Seq<char>) -> Seq<char> {
    if extension.len() > 0 && extension[0] == '.' {
        extension
    } else {
        "."@ + extension
    }
}

/// The path of the file in `dir` that is named by `prefix`, the time stamp
/// `stamp` and `extension`.
pub open spec fn filename_text(
    dir: Seq<char>,
    prefix: Seq<char>,
    stamp: Seq<char>,
    extension: Seq<char>,
) -> Seq<char> {
    dir + "/"@ + prefix + "_"@ + stamp + dotted(extension)
}

/// The directory that a snapshot goes to: the output directory where it exists
/// or could be created, else the current directory.
pub open spec fn snapshot_dir_text(dir_ready: bool) -> Seq<char> {
    if dir_ready {
        OUTPUT_DIR@
    } else {
        FALLBACK_DIR@
    }
}

/// The digits of `n`, with zeros before them where they are fewer than `width`.
pub fn padded_number(n: u64, width: usize) -> (r: String)
    ensures
        r@ == padded_text(n as nat, width as nat),
{
    let text = number_to_text(n);
    let len: usize = text.as_str().unicode_len();
    if len >= width {
        return text;
    }
    proof {
        reveal_strlit("0");
    }
    let mut pad = String::new();
    let mut i: usize = 0;
    assert(pad@ =~= zeros(0));
    while i < width - len
        invariant
            len < width,
            i <= width - len,
            pad@ == zeros(i as nat),
            "0"@ == seq!['0'],
        decreases width - len - i,
    {
        pad = pad.concat("0");
        i += 1;
        assert(pad@ =~= zeros(i as nat));
    }
    pad.concat(text.as_str())
}

/// A year as a time stamp writes it.
fn year_to_text(year: i32) -> (r: String)
    ensures
        r@ == year_text(year as int),
{
    if 0 <= year && year <= 9999 {
        padded_number(year as u64, 4)
    } else if year > 9999 {
        String::from_str("+").concat(padded_number(year as u64, 4).as_str())
    } else {
        String::from_str("-").concat(padded_number((-(year as i64)) as u64, 4).as_str())
    }
}

impl LocalTime {
    /// The time stamp of the moment.
    pub fn stamp(&self) -> (r: String)
        ensures
            r@ == self.stamp_text(),
    {
        year_to_text(self.year).concat(padded_number(self.month as u64, 2).as_str()).concat(
            padded_number(self.day as u64, 2).as_str(),
        ).concat("_").concat(padded_number(self.hour as u64, 2).as_str()).concat(
            padded_number(self.minute as u64, 2).as_str(),
        ).concat(padded_number(self.second as u64, 2).as_str())
    }
}

/// The path of the file in `dir` that is named by `prefix`, the time stamp
/// `stamp` and `extension`.
pub fn timestamped_filename(dir: &str, prefix: &str, stamp: &str, extension: &str) -> (r: String)
    ensures
        r@ == filename_text(dir@, prefix@, stamp@, extension@),
{
    let name = String::from_str(dir).concat("/").concat(prefix).concat("_").concat(stamp);
    if extension.unicode_len() > 0 && extension.get_char(0) == '.' {
        name.concat(extension)
    } else {
        name.concat(".").concat(extension)
    }
}

/// The path of the file in `dir` that is named by `prefix`, the time stamp of
/// the moment `now` and `extension`.
pub fn get_timestamped_filename(dir: &str, prefix: &str, extension: &str, now: &LocalTime) -> (r:
    String)
    ensures
        r@ == filename_text(dir@, prefix@, now.stamp_text(), extension@),
{
    let stamp = now.stamp();
    timestamped_filename(dir, prefix, stamp.as_str(), extension)
}

/// The directory that a snapshot goes to, given whether the output directory
/// exists or could be created.
pub fn snapshot_dir(dir_ready: bool) -> (r: &'static str)
    ensures
        r@ == snapshot_dir_text(dir_ready),
{
    if dir_ready {
        OUTPUT_DIR
    } else {
        FALLBACK_DIR
    }
}

/// The path of the snapshot file that is named after the time stamp `stamp`.
/// Where the output directory could not be had the file goes to the current
/// directory.
pub fn snapshot_path(dir_ready: bool, stamp: &str) -> (r: String)
    ensures
        r@ == filename_text(
            snapshot_dir_text(dir_ready),
            SNAPSHOT_PREFIX@,
            stamp@,
            SNAPSHOT_EXTENSION@,
        ),
{
    timestamped_filename(snapshot_dir(dir_ready), SNAPSHOT_PREFIX, stamp, SNAPSHOT_EXTENSION)
}

} // verus!
