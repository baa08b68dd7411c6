use stockdata::merge::{find_code, merge_stock_data_sources};
use stockdata::models::{merge_stock_data, Rating, StockData};
use stockdata::numbers::Decimal;

fn dec(x: f64) -> Decimal {
    Decimal::from_micros((x * 1_000_000.0).round() as i64)
}

fn stock(code: &str) -> StockData {
    let mut s = StockData::default();
    s.code = code.to_string();
    s
}

#[test]
fn test_merge_stock_data_sources() {
    let mut source1 = Vec::new();
    let mut source2 = Vec::new();
    let mut source3 = Vec::new();

    let mut stock1 = StockData::default();
    stock1.code = "SH000001".to_string();
    stock1.name = "上证指数".to_string();
    stock1.price = dec(3000.0);
    stock1.change_percent = dec(1.5);
    source1.push(stock1);

    let mut stock2 = StockData::default();
    stock2.code = "SZ399001".to_string();
    stock2.name = "深证成指".to_string();
    stock2.price = dec(10000.0);
    stock2.change_percent = dec(-0.8);
    source1.push(stock2);

    let mut stock1_perf = StockData::default();
    stock1_perf.code = "SH000001".to_string();
    stock1_perf.performance_1w = dec(2.5);
    stock1_perf.performance_1m = dec(-1.2);
    stock1_perf.performance_1y = dec(15.3);
    source2.push(stock1_perf);

    let mut stock1_val = StockData::default();
    stock1_val.code = "SH000001".to_string();
    stock1_val.market_cap = 30000000000;
    stock1_val.pe_ratio = dec(15.2);

    let mut stock3 = StockData::default();
    stock3.code = "SH600000".to_string();
    stock3.name = "浦发银行".to_string();
    stock3.price = dec(10.5);
    stock3.market_cap = 300000000;
    source3.push(stock1_val);
    source3.push(stock3);

    let data_sources = vec![source1, source2, source3];
    let merged = merge_stock_data_sources(&data_sources);

    assert_eq!(merged.len(), 3);

    if let Some(sh000001) = merged.iter().find(|s| s.code == "SH000001") {
        assert_eq!(sh000001.name, "上证指数");
        assert_eq!(sh000001.price, dec(3000.0));
        assert_eq!(sh000001.change_percent, dec(1.5));
        assert_eq!(sh000001.performance_1w, dec(2.5));
        assert_eq!(sh000001.performance_1m, dec(-1.2));
        assert_eq!(sh000001.performance_1y, dec(15.3));
        assert_eq!(sh000001.market_cap, 30000000000);
        assert_eq!(sh000001.pe_ratio, dec(15.2));
    } else {
        panic!("未找到上证指数的数据");
    }

    if let Some(sh600000) = merged.iter().find(|s| s.code == "SH600000") {
        assert_eq!(sh600000.name, "浦发银行");
        assert_eq!(sh600000.price, dec(10.5));
        assert_eq!(sh600000.market_cap, 300000000);
    } else {
        panic!("未找到浦发银行的数据");
    }
}

#[test]
fn merge_is_complete() {
    let mut a = stock("A");
    a.price = dec(10.0);
    let mut b = stock("A");
    b.volume = 500;
    let merged = merge_stock_data_sources(&[vec![a], vec![b]]);
    assert_eq!(merged.len(), 1);
    assert_eq!(merged[0].code, "A");
    assert_eq!(merged[0].price, dec(10.0));
    assert_eq!(merged[0].volume, 500);
}

#[test]
fn merge_keeps_the_first_value() {
    let mut a = stock("A");
    a.price = dec(10.0);
    let mut b = stock("A");
    b.price = dec(20.0);
    let merged = merge_stock_data_sources(&[vec![a], vec![b]]);
    assert_eq!(merged.len(), 1);
    assert_eq!(merged[0].price, dec(10.0));
}

#[test]
fn merging_a_source_with_itself_changes_nothing() {
    let make = || {
        let mut a = stock("A");
        a.price = dec(10.0);
        a.rating = Rating::Buy;
        let mut b = stock("B");
        b.volume = 7;
        b.sector = "银行".to_string();
        let mut a2 = stock("A");
        a2.price = dec(11.0);
        a2.volume = 3;
        vec![a, b, a2]
    };
    let once = merge_stock_data_sources(&[make()]);
    let twice = merge_stock_data_sources(&[make(), make()]);
    assert_eq!(format!("{:?}", once), format!("{:?}", twice));
    assert_eq!(once.len(), 2);
    assert_eq!(once[0].price, dec(10.0));
    assert_eq!(once[0].volume, 3);
}

#[test]
fn one_record_per_code_in_order_of_first_sight() {
    let sources = vec![
        vec![stock("B"), stock("A"), stock("B")],
        vec![],
        vec![stock("C"), stock("A")],
    ];
    let merged = merge_stock_data_sources(&sources);
    let codes: Vec<&str> = merged.iter().map(|s| s.code.as_str()).collect();
    assert_eq!(codes, vec!["B", "A", "C"]);
    assert_eq!(find_code(&merged, "A"), 1);
    assert_eq!(find_code(&merged, "Z"), 3);
    assert!(merge_stock_data_sources(&[]).is_empty());
}

#[test]
fn every_kind_of_field_fills_only_while_it_is_default() {
    let mut dest = stock("A");
    dest.name = "kept".to_string();
    dest.market_cap = 5;
    dest.ma_rating = Rating::Sell;
    let mut src = stock("other");
    src.name = "offered".to_string();
    src.sector = "tech".to_string();
    src.market_cap = 9;
    src.net_debt = -404;
    src.ma_rating = Rating::Buy;
    src.technical_rating = Rating::StrongBuy;
    src.rsi_14 = dec(55.5);
    src.candlestick_pattern = "doji".to_string();
    merge_stock_data(&mut dest, &src);
    assert_eq!(dest.code, "A");
    assert_eq!(dest.name, "kept");
    assert_eq!(dest.sector, "tech");
    assert_eq!(dest.market_cap, 5);
    assert_eq!(dest.net_debt, -404);
    assert_eq!(dest.ma_rating, Rating::Sell);
    assert_eq!(dest.technical_rating, Rating::StrongBuy);
    assert_eq!(dest.oscillators_rating, Rating::Unknown);
    assert_eq!(dest.rsi_14, dec(55.5));
    assert_eq!(dest.candlestick_pattern, "doji");
    assert_eq!(dest.price, Decimal::zero());
}

#[test]
fn ratings_are_read_from_their_labels() {
    assert_eq!(Rating::from_str("强烈买入"), Rating::StrongBuy);
    assert_eq!(Rating::from_str(" 买入 "), Rating::Buy);
    assert_eq!(Rating::from_str("中立"), Rating::Neutral);
    assert_eq!(Rating::from_str("卖出"), Rating::Sell);
    assert_eq!(Rating::from_str("强烈卖出\n"), Rating::StrongSell);
    assert_eq!(Rating::from_str("中性"), Rating::Unknown);
    assert_eq!(Rating::from_str(""), Rating::Unknown);
    assert_eq!(Rating::default(), Rating::Unknown);
}

#[test]
fn a_copy_of_a_record_is_equal_in_every_field() {
    let mut a = stock("A");
    a.price = dec(1.25);
    a.total_assets = 42;
    a.rating = Rating::Neutral;
    let b = a.clone();
    assert_eq!(format!("{:?}", a), format!("{:?}", b));
}
