use stockdata::error::FetchError;
use stockdata::models::{Rating, StockData};
use stockdata::numbers::Decimal;
use stockdata::parser::{
    parse_stock_data_from_json, parse_tab_payload, tab_columns, Cell, Column,
};
use stockdata::tabs::TabType;

fn dec(x: f64) -> Decimal {
    Decimal::from_micros((x * 1_000_000.0).round() as i64)
}

fn doc(text: &str) -> serde_json::Value {
    serde_json::from_str(text).unwrap()
}

#[test]
fn overview_rows_become_records() {
    let data = doc(
        r#"[
        {"code":"SH600000","name":"浦发银行","price":"10.50","changePercent":"−2.02%",
         "volume":"1.2M","relativeVolume":"0.85","marketCap":"300B","peRatio":"5.1",
         "eps":"2.05","earningsGrowth":"+12.5%","dividendYield":"4.2%","sector":"金融",
         "rating":"买入"},
        {"name":"no code"},
        {"code":"SZ000001","price":"—","volume":"n/a","rating":"?"}
    ]"#,
    );
    let stocks = parse_stock_data_from_json(data, TabType::Overview).unwrap();
    assert_eq!(stocks.len(), 2);
    let s = &stocks[0];
    assert_eq!(s.code, "SH600000");
    assert_eq!(s.name, "浦发银行");
    assert_eq!(s.price, dec(10.5));
    assert_eq!(s.change_percent, dec(-2.02));
    assert_eq!(s.volume, 1_200_000);
    assert_eq!(s.relative_volume, dec(0.85));
    assert_eq!(s.market_cap, 300_000_000_000);
    assert_eq!(s.pe_ratio, dec(5.1));
    assert_eq!(s.eps, dec(2.05));
    assert_eq!(s.earnings_growth, dec(12.5));
    assert_eq!(s.dividend_yield, dec(4.2));
    assert_eq!(s.sector, "金融");
    assert_eq!(s.rating, Rating::Buy);
    assert_eq!(s.performance_1w, Decimal::zero());
    let t = &stocks[1];
    assert_eq!(t.code, "SZ000001");
    assert_eq!(t.name, "");
    assert_eq!(t.price, Decimal::missing());
    assert_eq!(t.volume, -500);
    assert_eq!(t.rating, Rating::Unknown);
    assert_eq!(t.market_cap, 0);
}

#[test]
fn a_tab_reads_its_own_columns_only() {
    let text = r#"[{"code":"A","price":"1","peRatio":"9","pegRatio":"2","rsi14":"55",
                    "technicalRating":"强烈卖出","candlestickPattern":"锤子线",
                    "totalRevenue":"1.5B","freeCashFlow":"-2M"}]"#;
    let valuation = parse_stock_data_from_json(doc(text), TabType::Valuation).unwrap();
    assert_eq!(valuation[0].peg_ratio, dec(2.0));
    assert_eq!(valuation[0].pe_ratio, Decimal::zero());
    assert_eq!(valuation[0].rsi_14, Decimal::zero());
    assert_eq!(valuation[0].price, dec(1.0));
    let technicals = parse_stock_data_from_json(doc(text), TabType::Technicals).unwrap();
    assert_eq!(technicals[0].rsi_14, dec(55.0));
    assert_eq!(technicals[0].technical_rating, Rating::StrongSell);
    assert_eq!(technicals[0].candlestick_pattern, "锤子线");
    assert_eq!(technicals[0].peg_ratio, Decimal::zero());
    let income = parse_stock_data_from_json(doc(text), TabType::IncomeStatement).unwrap();
    assert_eq!(income[0].total_revenue, 1_500_000_000);
    assert_eq!(income[0].free_cash_flow, 0);
    let cash = parse_stock_data_from_json(doc(text), TabType::CashFlow).unwrap();
    assert_eq!(cash[0].free_cash_flow, -2_000_000);
}

#[test]
fn members_that_are_no_text_are_passed_over() {
    let data = doc(r#"[{"code":"A","price":10.5,"name":null,"volume":["1"]}, {"code":7}, 3, "x"]"#);
    let stocks = parse_stock_data_from_json(data, TabType::Overview).unwrap();
    assert_eq!(stocks.len(), 1);
    assert_eq!(stocks[0].code, "A");
    assert_eq!(stocks[0].price, Decimal::zero());
    assert_eq!(stocks[0].name, "");
    assert_eq!(stocks[0].volume, 0);
}

#[test]
fn a_document_that_is_no_array_has_no_rows() {
    for text in [r#"{"code":"A"}"#, "null", "\"[]\"", "12", "[]"] {
        let stocks = parse_stock_data_from_json(doc(text), TabType::Overview).unwrap();
        assert!(stocks.is_empty(), "{}", text);
    }
}

#[test]
fn payloads_are_parsed_or_refused() {
    let ok = parse_tab_payload(Some(r#"[{"code":"A","roe":"12%"}]"#), TabType::Profitability);
    let records = ok.unwrap();
    assert_eq!(records.len(), 1);
    assert_eq!(records[0].roe, dec(12.0));
    assert!(parse_tab_payload(None, TabType::Overview).unwrap().is_empty());
    for text in ["", "[", "[{\"code\":}]", "not json", "[1,]"] {
        assert_eq!(
            parse_tab_payload(Some(text), TabType::Overview).unwrap_err(),
            FetchError::MalformedPayload,
            "{:?}",
            text
        );
    }
}

#[test]
fn cells_are_read_in_order() {
    let cells = vec![
        Cell::new(Column::Price, "1.5"),
        Cell::new(Column::Code, "A"),
        Cell::new(Column::Price, "2.5"),
        Cell::new(Column::Ebitda, "3K"),
        Cell::new(Column::OscillatorsRating, "中立"),
    ];
    let record = StockData::from_cells(&cells).unwrap();
    assert_eq!(record.code, "A");
    assert_eq!(record.price, dec(2.5));
    assert_eq!(record.ebitda, 3_000);
    assert_eq!(record.oscillators_rating, Rating::Neutral);
    assert!(StockData::from_cells(&[Cell::new(Column::Price, "1")].into_iter().collect())
        .is_none());
    assert!(StockData::from_cells(&Vec::new()).is_none());
}

#[test]
fn one_cell_sets_one_field() {
    let mut record = StockData::default();
    record.set_cell(Column::MarketCap, "1.2B");
    record.set_cell(Column::Roe, "-3.5%");
    record.set_cell(Column::Sector, " 科技 ");
    record.set_cell(Column::MaRating, "卖出");
    assert_eq!(record.market_cap, 1_200_000_000);
    assert_eq!(record.roe, dec(-3.5));
    assert_eq!(record.sector, " 科技 ");
    assert_eq!(record.ma_rating, Rating::Sell);
    assert_eq!(record.code, "");
}

#[test]
fn every_tab_reads_code_name_and_price_first() {
    let mut total = 0;
    for tab in TabType::all() {
        let columns = tab_columns(tab);
        assert_eq!(&columns[..3], &[Column::Code, Column::Name, Column::Price]);
        total += columns.len() - 3;
    }
    assert_eq!(total, 92);
    assert_eq!(tab_columns(TabType::CashFlow).len(), 8);
    assert_eq!(Column::ChangePercent.key(), "changePercent");
    assert_eq!(Column::Rsi14.key(), "rsi14");
    assert_eq!(Column::PriceToFreeCashFlow.key(), "priceToFreeCashFlow");
}
