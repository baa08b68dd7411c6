use stockdata::api::{
    uptime_parts, FetchRequest, FetchResponse, ServerError, ServerStatus, Uptime,
    FETCH_STARTED_MESSAGE,
};
use stockdata::text::number_to_text;
use stockdata::coordinator::{
    prices_of, DataAnswer, FetchState, FetchTicket, PriceAnswer, PriceEntry, PricePlan, Status,
    StockDataState, PRICE_TTL_SECONDS,
};
use stockdata::error::FetchError;
use stockdata::models::StockData;
use stockdata::numbers::Decimal;

fn dec(x: f64) -> Decimal {
    Decimal::from_micros((x * 1_000_000.0).round() as i64)
}

fn stock(code: &str, price: f64) -> StockData {
    let mut s = StockData::default();
    s.code = code.to_string();
    s.price = dec(price);
    s
}

fn ready() -> StockDataState {
    let mut state = StockDataState::new();
    assert_eq!(state.begin_init(), Ok(()));
    state.finish_init(true);
    assert_eq!(state.state, FetchState::Ready);
    state
}

#[test]
fn fetch_is_single_flight() {
    let mut state = ready();
    assert_eq!(state.fetch(true, 100), Ok(FetchTicket { save_to_file: true }));
    assert_eq!(state.state, FetchState::Fetching);
    assert_eq!(state.fetch(false, 101), Err(FetchError::FetchInProgress));
    assert_eq!(state.state, FetchState::Fetching);
    assert_eq!(state.fetch_data_last_fetch, Some(100));
    state.complete_fetch(Ok(vec![stock("A", 1.0)]));
    assert_eq!(state.state, FetchState::Ready);
    assert_eq!(state.fetch(false, 102), Ok(FetchTicket { save_to_file: false }));
}

#[test]
fn close_is_refused_while_fetching() {
    let mut state = ready();
    state.fetch(false, 5).unwrap();
    let before = format!("{:?}", state);
    assert_eq!(state.begin_close(), Err(FetchError::CloseWhileFetching));
    assert_eq!(format!("{:?}", state), before);
    state.complete_fetch(Err(FetchError::NavigationFailed));
    assert_eq!(state.begin_close(), Ok(()));
    assert_eq!(state.state, FetchState::Closing);
    state.finish_close();
    assert_eq!(state.state, FetchState::Idle);
    assert_eq!(state.begin_close(), Err(FetchError::NotInitialized));
}

#[test]
fn init_is_admitted_from_idle_only() {
    let mut state = StockDataState::new();
    assert_eq!(state.state, FetchState::Idle);
    assert_eq!(state.fetch(false, 0), Err(FetchError::NotInitialized));
    assert_eq!(state.begin_close(), Err(FetchError::NotInitialized));
    assert_eq!(state.begin_price(0), Err(FetchError::NotInitialized));
    assert_eq!(state.begin_init(), Ok(()));
    assert_eq!(state.state, FetchState::Initializing);
    assert_eq!(state.begin_init(), Err(FetchError::AlreadyInitialized));
    assert_eq!(state.fetch(false, 0), Err(FetchError::NotInitialized));
    state.finish_init(false);
    assert_eq!(state.state, FetchState::Idle);
    assert_eq!(state.begin_init(), Ok(()));
    state.finish_init(true);
    assert_eq!(state.state, FetchState::Ready);
    assert_eq!(state.begin_init(), Err(FetchError::AlreadyInitialized));
    state.finish_init(false);
    assert_eq!(state.state, FetchState::Ready);
}

#[test]
fn a_fetch_clears_the_result_and_returns_to_ready_whatever_happens() {
    let mut state = ready();
    state.fetch(false, 1).unwrap();
    state.complete_fetch(Ok(vec![stock("A", 1.0), stock("B", 2.0)]));
    assert_eq!(state.fetched_data.len(), 2);
    assert_eq!(state.last_error, None);
    state.fetch(false, 2).unwrap();
    assert!(state.fetched_data.is_empty());
    state.complete_fetch(Err(FetchError::WaitTimeout));
    assert_eq!(state.state, FetchState::Ready);
    assert!(state.fetched_data.is_empty());
    assert_eq!(state.last_error, Some(FetchError::WaitTimeout));
    state.complete_fetch(Ok(vec![stock("C", 3.0)]));
    assert!(state.fetched_data.is_empty());
}

#[test]
fn status_is_a_snapshot() {
    let mut state = StockDataState::new();
    let idle = Status { initialized: false, fetching: false, last_fetch: None, record_count: 0 };
    assert_eq!(state.status(), idle);
    state.begin_init().unwrap();
    assert_eq!(state.status(), idle);
    state.finish_init(true);
    assert_eq!(state.status(), Status { initialized: true, ..idle });
    state.fetch(false, 77).unwrap();
    assert_eq!(
        state.status(),
        Status { initialized: true, fetching: true, last_fetch: Some(77), record_count: 0 }
    );
    state.complete_fetch(Ok(vec![stock("A", 1.0), stock("B", 2.0), stock("C", 3.0)]));
    assert_eq!(
        state.status(),
        Status { initialized: true, fetching: false, last_fetch: Some(77), record_count: 3 }
    );
    state.begin_close().unwrap();
    assert!(!state.status().initialized);
}

#[test]
fn data_is_all_records_or_the_one_asked_for() {
    let mut state = ready();
    assert!(matches!(state.data(None), DataAnswer::NotFound));
    assert!(matches!(state.data(Some("A")), DataAnswer::NotFound));
    state.fetch(false, 1).unwrap();
    state.complete_fetch(Ok(vec![stock("A", 1.0), stock("B", 2.0), stock("A", 3.0)]));
    match state.data(None) {
        DataAnswer::All(all) => {
            assert_eq!(all.len(), 3);
            assert_eq!(all[1].code, "B");
        }
        other => panic!("{:?}", other),
    }
    match state.data(Some("A")) {
        DataAnswer::One(one) => assert_eq!(one.price, dec(1.0)),
        other => panic!("{:?}", other),
    }
    match state.data(Some("B")) {
        DataAnswer::One(one) => assert_eq!(one.price, dec(2.0)),
        other => panic!("{:?}", other),
    }
    assert!(matches!(state.data(Some("Z")), DataAnswer::NotFound));
    assert!(matches!(state.data(Some("")), DataAnswer::NotFound));
}

#[test]
fn prices_are_served_from_the_table_for_sixty_seconds() {
    assert_eq!(PRICE_TTL_SECONDS, 60);
    let mut state = ready();
    assert_eq!(state.begin_price(1_000), Ok(PricePlan::Refresh));
    assert_eq!(state.state, FetchState::Fetching);
    assert_eq!(state.begin_price(1_000), Err(FetchError::FetchInProgress));
    assert_eq!(state.fetch(false, 1_000), Err(FetchError::FetchInProgress));
    state.finish_price(Ok(prices_of(&vec![stock("A", 1.5), stock("B", 2.5)])), 1_001);
    assert_eq!(state.state, FetchState::Ready);
    assert_eq!(state.begin_price(1_001), Ok(PricePlan::Cached));
    assert_eq!(state.begin_price(1_061), Ok(PricePlan::Cached));
    assert_eq!(state.begin_price(900), Ok(PricePlan::Cached));
    assert_eq!(state.state, FetchState::Ready);
    assert_eq!(state.begin_price(1_062), Ok(PricePlan::Refresh));
    state.finish_price(Err(FetchError::DriverFailure), 1_070);
    assert_eq!(state.state, FetchState::Ready);
    assert_eq!(state.last_error, Some(FetchError::DriverFailure));
    assert_eq!(state.fetched_price_last_fetch, Some(1_001));
    assert_eq!(state.fetched_price.len(), 2);
    assert_eq!(state.begin_price(i64::MAX), Ok(PricePlan::Refresh));
    state.finish_price(Ok(Vec::new()), i64::MIN);
    assert_eq!(state.begin_price(i64::MIN), Ok(PricePlan::Refresh));
}

#[test]
fn a_price_is_the_first_of_its_code() {
    let mut state = ready();
    state.begin_price(0).unwrap();
    let entries = vec![
        PriceEntry { code: "A".to_string(), price: dec(1.5) },
        PriceEntry { code: "B".to_string(), price: dec(2.5) },
        PriceEntry { code: "A".to_string(), price: dec(9.0) },
    ];
    state.finish_price(Ok(entries), 0);
    match state.get_price(Some("A")) {
        PriceAnswer::One(p) => assert_eq!(p, dec(1.5)),
        other => panic!("{:?}", other),
    }
    match state.get_price(Some("B")) {
        PriceAnswer::One(p) => assert_eq!(p, dec(2.5)),
        other => panic!("{:?}", other),
    }
    assert!(matches!(state.get_price(Some("C")), PriceAnswer::NotFound));
    match state.get_price(None) {
        PriceAnswer::All(all) => {
            assert_eq!(all.len(), 3);
            assert_eq!(all[2].code, "A");
            assert_eq!(all[2].price, dec(9.0));
        }
        other => panic!("{:?}", other),
    }
    match StockDataState::new().get_price(None) {
        PriceAnswer::All(all) => assert!(all.is_empty()),
        other => panic!("{:?}", other),
    }
}

#[test]
fn records_report_their_prices() {
    let prices = prices_of(&vec![stock("A", 1.5), stock("B", -404.0)]);
    assert_eq!(prices.len(), 2);
    assert_eq!(prices[0].code, "A");
    assert_eq!(prices[0].price, dec(1.5));
    assert_eq!(prices[1].price, Decimal::missing());
}

#[test]
fn requests_and_responses_say_what_was_decided() {
    assert!(FetchRequest { save_to_file: Some(true) }.wants_file());
    assert!(!FetchRequest { save_to_file: Some(false) }.wants_file());
    assert!(!FetchRequest { save_to_file: None }.wants_file());
    let ok = FetchResponse::acknowledge(&Ok(FetchTicket { save_to_file: false }));
    assert!(ok.success);
    assert_eq!(ok.message, FETCH_STARTED_MESSAGE);
    assert_eq!(ok.message, "数据抓取任务已启动");
    assert_eq!(ok.count, 0);
    let busy = FetchResponse::acknowledge(&Err(FetchError::FetchInProgress));
    assert!(!busy.success);
    assert_eq!(busy.message, "数据抓取正在进行中");
    assert_eq!(busy.count, 0);
}

#[test]
fn every_failure_has_its_message() {
    let all = [
        (FetchError::NotInitialized, "WebDriver未初始化, 请先调用init接口"),
        (FetchError::AlreadyInitialized, "WebDriver已经初始化"),
        (FetchError::FetchInProgress, "数据抓取正在进行中"),
        (FetchError::CloseWhileFetching, "数据抓取正在进行中, 无法关闭WebDriver"),
        (FetchError::TabNotFound, "找不到标签页"),
        (FetchError::WaitTimeout, "等待页面加载超时"),
        (FetchError::NavigationFailed, "打开TradingView页面失败"),
        (FetchError::MalformedPayload, "解析标签页数据失败"),
        (FetchError::DriverFailure, "WebDriver命令执行失败"),
    ];
    for (error, message) in all {
        assert_eq!(error.message(), message);
        assert_eq!(ServerError::from_error(error).to_text(), message);
    }
    assert_eq!(ServerError::new("x".to_string()).0, "x");
}

#[test]
fn uptime_is_split_into_days_hours_and_minutes() {
    assert_eq!(uptime_parts(0), Uptime { days: 0, hours: 0, minutes: 0 });
    assert_eq!(uptime_parts(59), Uptime { days: 0, hours: 0, minutes: 0 });
    assert_eq!(uptime_parts(3_600 * 25 + 61), Uptime { days: 1, hours: 1, minutes: 1 });
    assert_eq!(uptime_parts(86_399), Uptime { days: 0, hours: 23, minutes: 59 });
    assert_eq!(uptime_parts(u64::MAX).days, u64::MAX / 86_400);
}

#[test]
fn numbers_are_written_in_base_ten() {
    for n in [0u64, 1, 9, 10, 11, 99, 100, 101, 12_345, 1_000_000, u64::MAX] {
        assert_eq!(number_to_text(n), n.to_string());
    }
}

#[test]
fn a_running_server_says_for_how_long() {
    let status = ServerStatus::running(3_600 * 49 + 125, "1.2.3".to_string());
    assert_eq!(status.status, "running");
    assert_eq!(status.uptime, "2 days, 1 hours, 2 minutes");
    assert_eq!(status.version, "1.2.3");
    assert_eq!(ServerStatus::running(0, String::new()).uptime, "0 days, 0 hours, 0 minutes");
}
