use stockdata::error::FetchError;
use stockdata::numbers::Decimal;
use stockdata::scraper::{Command, Event, FetchRun, Phase, Script, TabState, TARGET_URL};
use stockdata::tabs::TabType;

fn dec(x: f64) -> Decimal {
    Decimal::from_micros((x * 1_000_000.0).round() as i64)
}

fn open_page(run: &mut FetchRun) {
    assert_eq!(run.step(Event::Navigated, 0), Command::Evaluate(Script::PageLoaded));
    assert_eq!(
        run.step(Event::Boolean(Some(true)), 10),
        Command::Evaluate(Script::ClickTab(TabType::Overview))
    );
}

/// Drives one tab from its click to the reading of its rows.
fn read_tab(run: &mut FetchRun, tab: TabType, payload: &str) -> Command {
    assert_eq!(run.tab_state(), TabState::Activating);
    assert_eq!(run.step(Event::Boolean(Some(true)), 100), Command::Evaluate(Script::TabLoaded));
    assert_eq!(run.tab_state(), TabState::LoadWaiting);
    assert_eq!(run.step(Event::Boolean(Some(false)), 150), Command::Sleep(200));
    assert_eq!(run.step(Event::Slept, 350), Command::Evaluate(Script::TabLoaded));
    assert_eq!(
        run.step(Event::Boolean(Some(true)), 400),
        Command::Evaluate(Script::ScrollToBottom)
    );
    assert_eq!(run.tab_state(), TabState::ScrollStabilizing);
    assert_eq!(run.step(Event::Boolean(Some(true)), 410), Command::Evaluate(Script::RowCount));
    assert_eq!(run.step(Event::Number(Some(120)), 420), Command::Evaluate(Script::ScrollToBottom));
    for i in 0..30 {
        assert_eq!(run.step(Event::Boolean(None), 430), Command::Evaluate(Script::RowCount));
        let command = run.step(Event::Number(Some(120)), 440);
        if i < 29 {
            assert_eq!(command, Command::Sleep(300));
            assert_eq!(run.step(Event::Slept, 740), Command::Evaluate(Script::ScrollToBottom));
        } else {
            assert_eq!(command, Command::Evaluate(Script::ExtractRows(tab)));
        }
    }
    assert_eq!(run.tab_state(), TabState::Extracting);
    run.step(Event::Text(Some(payload.to_string())), 9_999)
}

#[test]
fn a_run_visits_every_tab_and_merges_what_they_give() {
    assert_eq!(TARGET_URL, "https://cn.tradingview.com/screener/");
    let (mut run, first) = FetchRun::new(false);
    assert_eq!(first, Command::Navigate);
    assert_eq!(run.tab_state(), TabState::Inactive);
    open_page(&mut run);
    let tabs = TabType::all();
    for (i, tab) in tabs.iter().enumerate() {
        let payload = match tab {
            TabType::Overview => r#"[{"code":"A","price":"10","volume":"5K"},{"code":"B"}]"#,
            TabType::Performance => r#"[{"code":"A","price":"20","performance1w":"1.5%"}]"#,
            TabType::Valuation => r#"[{"code":"C","pegRatio":"2"}]"#,
            _ => "[]",
        };
        let command = read_tab(&mut run, *tab, payload);
        if i + 1 < tabs.len() {
            assert_eq!(command, Command::Evaluate(Script::ClickTab(tabs[i + 1])));
            assert!(!run.is_finished());
        } else {
            assert_eq!(command, Command::Complete);
        }
    }
    assert!(run.is_finished());
    assert_eq!(run.tab_state(), TabState::Done);
    let records = run.finish().unwrap();
    let codes: Vec<&str> = records.iter().map(|r| r.code.as_str()).collect();
    assert_eq!(codes, vec!["A", "B", "C"]);
    assert_eq!(records[0].price, dec(10.0));
    assert_eq!(records[0].volume, 5_000);
    assert_eq!(records[0].performance_1w, dec(1.5));
    assert_eq!(records[2].peg_ratio, dec(2.0));
}

#[test]
fn a_failure_to_open_the_page_ends_the_run() {
    for event in [Event::Failed, Event::Slept, Event::Boolean(Some(true))] {
        let (mut run, _) = FetchRun::new(true);
        assert_eq!(run.step(event, 0), Command::Complete);
        assert!(run.is_finished());
        assert_eq!(run.finish().unwrap_err(), FetchError::NavigationFailed);
    }
}

#[test]
fn a_page_that_does_not_load_in_time_ends_the_run() {
    let (mut run, _) = FetchRun::new(false);
    assert_eq!(run.step(Event::Navigated, 1_000), Command::Evaluate(Script::PageLoaded));
    assert_eq!(run.step(Event::Boolean(Some(false)), 1_100), Command::Sleep(200));
    assert_eq!(run.step(Event::Slept, 1_300), Command::Evaluate(Script::PageLoaded));
    assert_eq!(run.step(Event::Boolean(None), 11_000), Command::Sleep(200));
    assert_eq!(run.step(Event::Slept, 11_200), Command::Evaluate(Script::PageLoaded));
    assert_eq!(run.step(Event::Boolean(Some(false)), 11_001), Command::Complete);
    assert_eq!(run.finish().unwrap_err(), FetchError::WaitTimeout);

    let (mut run, _) = FetchRun::new(false);
    run.step(Event::Navigated, 0);
    assert_eq!(run.step(Event::Failed, 5), Command::Complete);
    assert_eq!(run.finish().unwrap_err(), FetchError::DriverFailure);
}

#[test]
fn a_tab_that_fails_is_skipped() {
    let (mut run, _) = FetchRun::new(false);
    open_page(&mut run);
    // no button for the first tab
    assert_eq!(
        run.step(Event::Boolean(Some(false)), 20),
        Command::Evaluate(Script::ClickTab(TabType::Performance))
    );
    // the second tab never finishes loading
    assert_eq!(run.step(Event::Boolean(Some(true)), 100), Command::Evaluate(Script::TabLoaded));
    assert_eq!(run.step(Event::Boolean(Some(false)), 200), Command::Sleep(200));
    assert_eq!(run.step(Event::Slept, 400), Command::Evaluate(Script::TabLoaded));
    assert_eq!(
        run.step(Event::Boolean(Some(false)), 10_101),
        Command::Evaluate(Script::ClickTab(TabType::ExtendedHours))
    );
    // the third tab answers with text that is no JSON
    let command = read_tab(&mut run, TabType::ExtendedHours, "<html>");
    assert_eq!(command, Command::Evaluate(Script::ClickTab(TabType::Valuation)));
    // the driver fails in the fourth tab
    run.step(Event::Boolean(Some(true)), 0);
    assert_eq!(
        run.step(Event::Failed, 0),
        Command::Evaluate(Script::ClickTab(TabType::Dividends))
    );
    // the fifth tab gives a record
    let command = read_tab(&mut run, TabType::Dividends, r#"[{"code":"A","price":"1"}]"#);
    assert_eq!(command, Command::Evaluate(Script::ClickTab(TabType::Profitability)));
    assert_eq!(run.first_tab_error, Some(FetchError::TabNotFound));
    assert_eq!(run.sources.len(), 1);
    for _ in 0..5 {
        run.step(Event::Failed, 0);
    }
    assert!(run.is_finished());
    let records = run.finish().unwrap();
    assert_eq!(records.len(), 1);
    assert_eq!(records[0].code, "A");
}

#[test]
fn a_run_in_which_every_tab_fails_has_failed() {
    let (mut run, _) = FetchRun::new(true);
    open_page(&mut run);
    assert_eq!(run.step(Event::Boolean(Some(true)), 0), Command::Evaluate(Script::TabLoaded));
    run.step(Event::Boolean(Some(false)), 20_000);
    let mut last = Command::Navigate;
    for _ in 0..9 {
        last = run.step(Event::Boolean(Some(false)), 0);
    }
    assert_eq!(last, Command::Complete);
    assert_eq!(run.phase, Phase::Finished);
    assert_eq!(run.finish().unwrap_err(), FetchError::WaitTimeout);
}

#[test]
fn a_snapshot_is_written_only_when_asked_for_and_there_is_data() {
    let (mut run, _) = FetchRun::new(true);
    open_page(&mut run);
    read_tab(&mut run, TabType::Overview, r#"[{"code":"A"}]"#);
    let mut last = Command::Navigate;
    for _ in 0..9 {
        last = run.step(Event::Failed, 0);
    }
    assert_eq!(last, Command::Persist);
    assert!(!run.is_finished());
    assert_eq!(run.step(Event::Failed, 0), Command::Complete);
    assert!(run.is_finished());
    assert_eq!(run.step(Event::Persisted, 0), Command::Complete);
    assert_eq!(run.finish().unwrap().len(), 1);
}

#[test]
fn a_run_for_prices_visits_the_first_tab_only() {
    let (mut run, first) = FetchRun::price_only();
    assert_eq!(first, Command::Navigate);
    open_page(&mut run);
    let command = read_tab(&mut run, TabType::Overview, r#"[{"code":"A","price":"12.5"}]"#);
    assert_eq!(command, Command::Complete);
    let records = run.finish().unwrap();
    assert_eq!(records.len(), 1);
    assert_eq!(records[0].price, dec(12.5));
}

#[test]
fn a_script_without_text_gives_no_rows() {
    let (mut run, _) = FetchRun::price_only();
    open_page(&mut run);
    run.step(Event::Boolean(Some(true)), 0);
    run.step(Event::Boolean(Some(true)), 0);
    for i in 0..30 {
        run.step(Event::Boolean(Some(false)), 0);
        let command = run.step(Event::Number(None), 0);
        if i < 29 {
            assert_eq!(command, Command::Sleep(300));
            run.step(Event::Slept, 0);
        }
    }
    assert_eq!(run.phase, Phase::Extracting);
    assert_eq!(run.step(Event::Text(None), 0), Command::Complete);
    assert!(run.finish().unwrap().is_empty());
}

#[test]
fn a_page_without_any_tab_button_gives_tab_not_found() {
    let (mut run, _) = FetchRun::new(false);
    open_page(&mut run);
    let mut last = Command::Navigate;
    for _ in 0..10 {
        last = run.step(Event::Boolean(Some(false)), 0);
    }
    assert_eq!(last, Command::Complete);
    assert_eq!(run.finish().unwrap_err(), FetchError::TabNotFound);
}
