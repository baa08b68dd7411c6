//! The closed set of failures that the library reports.

use vstd::prelude::*;

verus! {

/// Why an operation failed.
#[derive(Debug, Clone, Copy, PartialEq, Eq, Structural, Hash)]
pub enum FetchError {
    /// No driver session exists; `init` has to come first.
    NotInitialized,
    /// A driver session exists, or is being set up, already.
    AlreadyInitialized,
    /// A fetch is running; at most one runs at a time.
    FetchInProgress,
    /// The session cannot be closed while a fetch is running.
    CloseWhileFetching,
    /// The page has no control for the tab.
    TabNotFound,
    /// The page did not finish loading in time.
    WaitTimeout,
    /// The target page could not be opened.
    NavigationFailed,
    /// The extraction script returned text that is not well-formed JSON.
    MalformedPayload,
    /// The driver session failed to carry out a command.
    DriverFailure,
}

impl FetchError {
    /// The message that tells a user of the failure.
    pub open spec fn message_text(self) -> Seq<char> {
        match self {
            FetchError::NotInitialized => "WebDriver未初始化, 请先调用init接口"@,
            FetchError::AlreadyInitialized => "WebDriver已经初始化"@,
            FetchError::FetchInProgress => "数据抓取正在进行中"@,
            FetchError::CloseWhileFetching => "数据抓取正在进行中, 无法关闭WebDriver"@,
            FetchError::TabNotFound => "找不到标签页"@,
            FetchError::WaitTimeout => "等待页面加载超时"@,
            FetchError::NavigationFailed => "打开TradingView页面失败"@,
            FetchError::MalformedPayload => "解析标签页数据失败"@,
            FetchError::DriverFailure => "WebDriver命令执行失败"@,
        }
    }

    /// The message that tells a user of the failure.
    pub fn message(&self) -> (r: &'static str)
        ensures
            r@ == self.message_text(),
    {
        match self {
            FetchError::NotInitialized => "WebDriver未初始化, 请先调用init接口",
            FetchError::AlreadyInitialized => "WebDriver已经初始化",
            FetchError::FetchInProgress => "数据抓取正在进行中",
            FetchError::CloseWhileFetching => "数据抓取正在进行中, 无法关闭WebDriver",
            FetchError::TabNotFound => "找不到标签页",
            FetchError::WaitTimeout => "等待页面加载超时",
            FetchError::NavigationFailed => "打开TradingView页面失败",
            FetchError::MalformedPayload => "解析标签页数据失败",
            FetchError::DriverFailure => "WebDriver命令执行失败",
        }
    }
}

} // verus!
