//! How the browser is driven: the driver program, where it listens and the
//! options that the browser is started with.

use vstd::prelude::*;

verus! {

/// The program that drives the browser.
pub const CHROMEDRIVER_PROGRAM: &'static str = "chromedriver";

/// The argument that tells the driver program its port.
pub const CHROMEDRIVER_PORT_ARGUMENT: &'static str = "--port=9516";

/// The address at which the driver program listens.
pub const WEBDRIVER_URL: &'static str = "http://localhost:9516";

/// The capability under which the browser options are handed over.
pub const CHROME_OPTIONS_KEY: &'static str = "goog:chromeOptions";

/// The arguments that the browser is started with: no window, and nothing that
/// would give the automation away or keep it from reading the page.
pub open spec fn chrome_argument_list() -> Seq<Seq<char>> {
    seq![
        "--headless"@,
        "--disable-gpu"@,
        "--no-sandbox"@,
        "--disable-dev-shm-usage"@,
        "--disable-web-security"@,
        "--window-size=1920,1080"@,
        "--disable-features=IsolateOrigins,site-per-process"@,
        "--disable-blink-features=AutomationControlled"@,
    ]
}

/// The arguments that the browser is started with.
pub fn chrome_arguments() -> (r: Vec<&'static str>)
    ensures
        r.deep_view() == chrome_argument_list(),
{
    let mut args: Vec<&'static str> = Vec::new();
    args.push("--headless");
    args.push("--disable-gpu");
    args.push("--no-sandbox");
    args.push("--disable-dev-shm-usage");
    args.push("--disable-web-security");
    args.push("--window-size=1920,1080");
    args.push("--disable-features=IsolateOrigins,site-per-process");
    args.push("--disable-blink-features=AutomationControlled");
    assert(args.deep_view() =~= chrome_argument_list());
    args
}

/// The switches that the browser is started without.
pub fn excluded_switches() -> (r: Vec<&'static str>)
    ensures
        r.deep_view() == seq!["enable-automation"@],
{
    let mut switches: Vec<&'static str> = Vec::new();
    switches.push("enable-automation");
    assert(switches.deep_view() =~= seq!["enable-automation"@]);
    switches
}

} // verus!
