//! From the rows that a tab's extraction script returns to typed records.
//!
//! Each tab reads a fixed list of columns. A column has a member name under
//! which the script reports its text, and a field of the record that the text
//! is read into. A row without a security code gives no record.

use crate::error::FetchError;
use crate::json::{json_from_text, json_row_count, json_row_text, json_rows, json_text_rows};
use crate::models::{rating_of_text, Rating, StockData, StockRecord};
use crate::numbers::{
    magnitude_of_text, micros_of_text, parse_f64, parse_large_number, parse_percentage,
};
use crate::tabs::TabType;
use vstd::prelude::*;

verus! {

/// A column of the screener table: one field of a record as one tab reports it.
#[derive(Debug, Clone, Copy, PartialEq, Eq, Structural, Hash)]
pub enum Column {
    Code,
    Name,
    Price,
    ChangePercent,
    Volume,
    RelativeVolume,
    MarketCap,
    PeRatio,
    Eps,
    EarningsGrowth,
    DividendYield,
    Sector,
    Rating,
    Performance1w,
    Performance1m,
    Performance3m,
    Performance6m,
    PerformanceYtd,
    Performance1y,
    Performance5y,
    Performance10y,
    PerformanceAll,
    Volatility1w,
    Volatility1m,
    PreMarketClose,
    PreMarketChange,
    PreMarketGap,
    PreMarketVolume,
    Gap,
    VolumeChange,
    PostMarketClose,
    PostMarketChange,
    PostMarketVolume,
    MarketCapPerf1y,
    PegRatio,
    PriceToSales,
    PriceToBook,
    PriceToCashFlow,
    PriceToFreeCashFlow,
    PriceToCash,
    EnterpriseValue,
    EvToRevenue,
    EvToEbit,
    EvToEbitda,
    DividendsPerShareYearly,
    DividendsPerShareQuarterly,
    DividendPayoutRatio,
    DividendsPerShareGrowth,
    ContinuousDividendPayout,
    ContinuousDividendGrowth,
    GrossMargin,
    OperatingMargin,
    ProfitMargin,
    PureMargin,
    FreeCashFlowMargin,
    Roi,
    Roe,
    Roic,
    RdRatio,
    SgaRatio,
    TotalRevenue,
    RevenueGrowth,
    GrossProfit,
    OperatingIncome,
    NetIncome,
    Ebitda,
    EpsDiluted,
    EpsDilutedGrowth,
    TotalAssets,
    TotalCurrentAssets,
    CashAndShortTerm,
    TotalLiabilities,
    TotalDebt,
    NetDebt,
    TotalEquity,
    CurrentRatio,
    QuickRatio,
    DebtToEquity,
    CashToDebt,
    OperatingCashFlow,
    InvestingCashFlow,
    FinancingCashFlow,
    FreeCashFlow,
    CapitalExpenditures,
    TechnicalRating,
    MaRating,
    OscillatorsRating,
    Rsi14,
    Momentum10,
    AwesomeOscillator,
    Cci20,
    StochasticK,
    StochasticD,
    CandlestickPattern,
}

impl Column {
    /// The member name under which the extraction script reports the column.
    pub open spec fn key_text(self) -> Seq<char> {
        match self {
            Column::Code => "code"@,
            Column::Name => "name"@,
            Column::Price => "price"@,
            Column::ChangePercent => "changePercent"@,
            Column::Volume => "volume"@,
            Column::RelativeVolume => "relativeVolume"@,
            Column::MarketCap => "marketCap"@,
            Column::PeRatio => "peRatio"@,
            Column::Eps => "eps"@,
            Column::EarningsGrowth => "earningsGrowth"@,
            Column::DividendYield => "dividendYield"@,
            Column::Sector => "sector"@,
            Column::Rating => "rating"@,
            Column::Performance1w => "performance1w"@,
            Column::Performance1m => "performance1m"@,
            Column::Performance3m => "performance3m"@,
            Column::Performance6m => "performance6m"@,
            Column::PerformanceYtd => "performanceYtd"@,
            Column::Performance1y => "performance1y"@,
            Column::Performance5y => "performance5y"@,
            Column::Performance10y => "performance10y"@,
            Column::PerformanceAll => "performanceAll"@,
            Column::Volatility1w => "volatility1w"@,
            Column::Volatility1m => "volatility1m"@,
            Column::PreMarketClose => "preMarketClose"@,
            Column::PreMarketChange => "preMarketChange"@,
            Column::PreMarketGap => "preMarketGap"@,
            Column::PreMarketVolume => "preMarketVolume"@,
            Column::Gap => "gap"@,
            Column::VolumeChange => "volumeChange"@,
            Column::PostMarketClose => "postMarketClose"@,
            Column::PostMarketChange => "postMarketChange"@,
            Column::PostMarketVolume => "postMarketVolume"@,
            Column::MarketCapPerf1y => "marketCapPerf1y"@,
            Column::PegRatio => "pegRatio"@,
            Column::PriceToSales => "priceToSales"@,
            Column::PriceToBook => "priceToBook"@,
            Column::PriceToCashFlow => "priceToCashFlow"@,
            Column::PriceToFreeCashFlow => "priceToFreeCashFlow"@,
            Column::PriceToCash => "priceToCash"@,
            Column::EnterpriseValue => "enterpriseValue"@,
            Column::EvToRevenue => "evToRevenue"@,
            Column::EvToEbit => "evToEbit"@,
            Column::EvToEbitda => "evToEbitda"@,
            Column::DividendsPerShareYearly => "dividendsPerShareYearly"@,
            Column::DividendsPerShareQuarterly => "dividendsPerShareQuarterly"@,
            Column::DividendPayoutRatio => "dividendPayoutRatio"@,
            Column::DividendsPerShareGrowth => "dividendsPerShareGrowth"@,
            Column::ContinuousDividendPayout => "continuousDividendPayout"@,
            Column::ContinuousDividendGrowth => "continuousDividendGrowth"@,
            Column::GrossMargin => "grossMargin"@,
            Column::OperatingMargin => "operatingMargin"@,
            Column::ProfitMargin => "profitMargin"@,
            Column::PureMargin => "pureMargin"@,
            Column::FreeCashFlowMargin => "freeCashFlowMargin"@,
            Column::Roi => "roi"@,
            Column::Roe => "roe"@,
            Column::Roic => "roic"@,
            Column::RdRatio => "rdRatio"@,
            Column::SgaRatio => "sgaRatio"@,
            Column::TotalRevenue => "totalRevenue"@,
            Column::RevenueGrowth => "revenueGrowth"@,
            Column::GrossProfit => "grossProfit"@,
            Column::OperatingIncome => "operatingIncome"@,
            Column::NetIncome => "netIncome"@,
            Column::Ebitda => "ebitda"@,
            Column::EpsDiluted => "epsDiluted"@,
            Column::EpsDilutedGrowth => "epsDilutedGrowth"@,
            Column::TotalAssets => "totalAssets"@,
            Column::TotalCurrentAssets => "totalCurrentAssets"@,
            Column::CashAndShortTerm => "cashAndShortTerm"@,
            Column::TotalLiabilities => "totalLiabilities"@,
            Column::TotalDebt => "totalDebt"@,
            Column::NetDebt => "netDebt"@,
            Column::TotalEquity => "totalEquity"@,
            Column::CurrentRatio => "currentRatio"@,
            Column::QuickRatio => "quickRatio"@,
            Column::DebtToEquity => "debtToEquity"@,
            Column::CashToDebt => "cashToDebt"@,
            Column::OperatingCashFlow => "operatingCashFlow"@,
            Column::InvestingCashFlow => "investingCashFlow"@,
            Column::FinancingCashFlow => "financingCashFlow"@,
            Column::FreeCashFlow => "freeCashFlow"@,
            Column::CapitalExpenditures => "capitalExpenditures"@,
            Column::TechnicalRating => "technicalRating"@,
            Column::MaRating => "maRating"@,
            Column::OscillatorsRating => "oscillatorsRating"@,
            Column::Rsi14 => "rsi14"@,
            Column::Momentum10 => "momentum10"@,
            Column::AwesomeOscillator => "awesomeOscillator"@,
            Column::Cci20 => "cci20"@,
            Column::StochasticK => "stochasticK"@,
            Column::StochasticD => "stochasticD"@,
            Column::CandlestickPattern => "candlestickPattern"@,
        }
    }

    /// The member name under which the extraction script reports the column.
    pub fn key(&self) -> (r: &'static str)
        ensures
            r@ == self.key_text(),
    {
        match self {
            Column::Code => "code",
            Column::Name => "name",
            Column::Price => "price",
            Column::ChangePercent => "changePercent",
            Column::Volume => "volume",
            Column::RelativeVolume => "relativeVolume",
            Column::MarketCap => "marketCap",
            Column::PeRatio => "peRatio",
            Column::Eps => "eps",
            Column::EarningsGrowth => "earningsGrowth",
            Column::DividendYield => "dividendYield",
            Column::Sector => "sector",
            Column::Rating => "rating",
            Column::Performance1w => "performance1w",
            Column::Performance1m => "performance1m",
            Column::Performance3m => "performance3m",
            Column::Performance6m => "performance6m",
            Column::PerformanceYtd => "performanceYtd",
            Column::Performance1y => "performance1y",
            Column::Performance5y => "performance5y",
            Column::Performance10y => "performance10y",
            Column::PerformanceAll => "performanceAll",
            Column::Volatility1w => "volatility1w",
            Column::Volatility1m => "volatility1m",
            Column::PreMarketClose => "preMarketClose",
            Column::PreMarketChange => "preMarketChange",
            Column::PreMarketGap => "preMarketGap",
            Column::PreMarketVolume => "preMarketVolume",
            Column::Gap => "gap",
            Column::VolumeChange => "volumeChange",
            Column::PostMarketClose => "postMarketClose",
            Column::PostMarketChange => "postMarketChange",
            Column::PostMarketVolume => "postMarketVolume",
            Column::MarketCapPerf1y => "marketCapPerf1y",
            Column::PegRatio => "pegRatio",
            Column::PriceToSales => "priceToSales",
            Column::PriceToBook => "priceToBook",
            Column::PriceToCashFlow => "priceToCashFlow",
            Column::PriceToFreeCashFlow => "priceToFreeCashFlow",
            Column::PriceToCash => "priceToCash",
            Column::EnterpriseValue => "enterpriseValue",
            Column::EvToRevenue => "evToRevenue",
            Column::EvToEbit => "evToEbit",
            Column::EvToEbitda => "evToEbitda",
            Column::DividendsPerShareYearly => "dividendsPerShareYearly",
            Column::DividendsPerShareQuarterly => "dividendsPerShareQuarterly",
            Column::DividendPayoutRatio => "dividendPayoutRatio",
            Column::DividendsPerShareGrowth => "dividendsPerShareGrowth",
            Column::ContinuousDividendPayout => "continuousDividendPayout",
            Column::ContinuousDividendGrowth => "continuousDividendGrowth",
            Column::GrossMargin => "grossMargin",
            Column::OperatingMargin => "operatingMargin",
            Column::ProfitMargin => "profitMargin",
            Column::PureMargin => "pureMargin",
            Column::FreeCashFlowMargin => "freeCashFlowMargin",
            Column::Roi => "roi",
            Column::Roe => "roe",
            Column::Roic => "roic",
            Column::RdRatio => "rdRatio",
            Column::SgaRatio => "sgaRatio",
            Column::TotalRevenue => "totalRevenue",
            Column::RevenueGrowth => "revenueGrowth",
            Column::GrossProfit => "grossProfit",
            Column::OperatingIncome => "operatingIncome",
            Column::NetIncome => "netIncome",
            Column::Ebitda => "ebitda",
            Column::EpsDiluted => "epsDiluted",
            Column::EpsDilutedGrowth => "epsDilutedGrowth",
            Column::TotalAssets => "totalAssets",
            Column::TotalCurrentAssets => "totalCurrentAssets",
            Column::CashAndShortTerm => "cashAndShortTerm",
            Column::TotalLiabilities => "totalLiabilities",
            Column::TotalDebt => "totalDebt",
            Column::NetDebt => "netDebt",
            Column::TotalEquity => "totalEquity",
            Column::CurrentRatio => "currentRatio",
            Column::QuickRatio => "quickRatio",
            Column::DebtToEquity => "debtToEquity",
            Column::CashToDebt => "cashToDebt",
            Column::OperatingCashFlow => "operatingCashFlow",
            Column::InvestingCashFlow => "investingCashFlow",
            Column::FinancingCashFlow => "financingCashFlow",
            Column::FreeCashFlow => "freeCashFlow",
            Column::CapitalExpenditures => "capitalExpenditures",
            Column::TechnicalRating => "technicalRating",
            Column::MaRating => "maRating",
            Column::OscillatorsRating => "oscillatorsRating",
            Column::Rsi14 => "rsi14",
            Column::Momentum10 => "momentum10",
            Column::AwesomeOscillator => "awesomeOscillator",
            Column::Cci20 => "cci20",
            Column::StochasticK => "stochasticK",
            Column::StochasticD => "stochasticD",
            Column::CandlestickPattern => "candlestickPattern",
        }
    }
}

/// The columns that are read from a row of `tab`, in reading order: code, name
/// and price, then the columns of the tab itself.
pub open spec fn columns_of(tab: TabType) -> Seq<Column> {
    match tab {
        TabType::Overview => seq![
            Column::Code,
            Column::Name,
            Column::Price,
            Column::ChangePercent,
            Column::Volume,
            Column::RelativeVolume,
            Column::MarketCap,
            Column::PeRatio,
            Column::Eps,
            Column::EarningsGrowth,
            Column::DividendYield,
            Column::Sector,
            Column::Rating,
        ],
        TabType::Performance => seq![
            Column::Code,
            Column::Name,
            Column::Price,
            Column::ChangePercent,
            Column::Performance1w,
            Column::Performance1m,
            Column::Performance3m,
            Column::Performance6m,
            Column::PerformanceYtd,
            Column::Performance1y,
            Column::Performance5y,
            Column::Performance10y,
            Column::PerformanceAll,
            Column::Volatility1w,
            Column::Volatility1m,
        ],
        TabType::ExtendedHours => seq![
            Column::Code,
            Column::Name,
            Column::Price,
            Column::PreMarketClose,
            Column::PreMarketChange,
            Column::PreMarketGap,
            Column::PreMarketVolume,
            Column::Gap,
            Column::VolumeChange,
            Column::PostMarketClose,
            Column::PostMarketChange,
            Column::PostMarketVolume,
        ],
        TabType::Valuation => seq![
            Column::Code,
            Column::Name,
            Column::Price,
            Column::MarketCapPerf1y,
            Column::PegRatio,
            Column::PriceToSales,
            Column::PriceToBook,
            Column::PriceToCashFlow,
            Column::PriceToFreeCashFlow,
            Column::PriceToCash,
            Column::EnterpriseValue,
            Column::EvToRevenue,
            Column::EvToEbit,
            Column::EvToEbitda,
        ],
        TabType::Dividends => seq![
            Column::Code,
            Column::Name,
            Column::Price,
            Column::DividendsPerShareYearly,
            Column::DividendsPerShareQuarterly,
            Column::DividendPayoutRatio,
            Column::DividendsPerShareGrowth,
            Column::ContinuousDividendPayout,
            Column::ContinuousDividendGrowth,
        ],
        TabType::Profitability => seq![
            Column::Code,
            Column::Name,
            Column::Price,
            Column::GrossMargin,
            Column::OperatingMargin,
            Column::ProfitMargin,
            Column::PureMargin,
            Column::FreeCashFlowMargin,
            Column::Roi,
            Column::Roe,
            Column::Roic,
            Column::RdRatio,
            Column::SgaRatio,
        ],
        TabType::IncomeStatement => seq![
            Column::Code,
            Column::Name,
            Column::Price,
            Column::TotalRevenue,
            Column::RevenueGrowth,
            Column::GrossProfit,
            Column::OperatingIncome,
            Column::NetIncome,
            Column::Ebitda,
            Column::EpsDiluted,
            Column::EpsDilutedGrowth,
        ],
        TabType::BalanceSheet => seq![
            Column::Code,
            Column::Name,
            Column::Price,
            Column::TotalAssets,
            Column::TotalCurrentAssets,
            Column::CashAndShortTerm,
            Column::TotalLiabilities,
            Column::TotalDebt,
            Column::NetDebt,
            Column::TotalEquity,
            Column::CurrentRatio,
            Column::QuickRatio,
            Column::DebtToEquity,
            Column::CashToDebt,
        ],
        TabType::CashFlow => seq![
            Column::Code,
            Column::Name,
            Column::Price,
            Column::OperatingCashFlow,
            Column::InvestingCashFlow,
            Column::FinancingCashFlow,
            Column::FreeCashFlow,
            Column::CapitalExpenditures,
        ],
        TabType::Technicals => seq![
            Column::Code,
            Column::Name,
            Column::Price,
            Column::TechnicalRating,
            Column::MaRating,
            Column::OscillatorsRating,
            Column::Rsi14,
            Column::Momentum10,
            Column::AwesomeOscillator,
            Column::Cci20,
            Column::StochasticK,
            Column::StochasticD,
            Column::CandlestickPattern,
        ],
    }
}

/// The columns that are read from a row of `tab`, in reading order.
pub fn tab_columns(tab: TabType) -> (r: Vec<Column>)
    ensures
        r@ == columns_of(tab),
{
    let mut cols: Vec<Column> = Vec::new();
    match tab {
        TabType::Overview => {
            cols.push(Column::Code);
            cols.push(Column::Name);
            cols.push(Column::Price);
            cols.push(Column::ChangePercent);
            cols.push(Column::Volume);
            cols.push(Column::RelativeVolume);
            cols.push(Column::MarketCap);
            cols.push(Column::PeRatio);
            cols.push(Column::Eps);
            cols.push(Column::EarningsGrowth);
            cols.push(Column::DividendYield);
            cols.push(Column::Sector);
            cols.push(Column::Rating);
            assert(cols@ =~= columns_of(TabType::Overview));
        },
        TabType::Performance => {
            cols.push(Column::Code);
            cols.push(Column::Name);
            cols.push(Column::Price);
            cols.push(Column::ChangePercent);
            cols.push(Column::Performance1w);
            cols.push(Column::Performance1m);
            cols.push(Column::Performance3m);
            cols.push(Column::Performance6m);
            cols.push(Column::PerformanceYtd);
            cols.push(Column::Performance1y);
            cols.push(Column::Performance5y);
            cols.push(Column::Performance10y);
            cols.push(Column::PerformanceAll);
            cols.push(Column::Volatility1w);
            cols.push(Column::Volatility1m);
            assert(cols@ =~= columns_of(TabType::Performance));
        },
        TabType::ExtendedHours => {
            cols.push(Column::Code);
            cols.push(Column::Name);
            cols.push(Column::Price);
            cols.push(Column::PreMarketClose);
            cols.push(Column::PreMarketChange);
            cols.push(Column::PreMarketGap);
            cols.push(Column::PreMarketVolume);
            cols.push(Column::Gap);
            cols.push(Column::VolumeChange);
            cols.push(Column::PostMarketClose);
            cols.push(Column::PostMarketChange);
            cols.push(Column::PostMarketVolume);
            assert(cols@ =~= columns_of(TabType::ExtendedHours));
        },
        TabType::Valuation => {
            cols.push(Column::Code);
            cols.push(Column::Name);
            cols.push(Column::Price);
            cols.push(Column::MarketCapPerf1y);
            cols.push(Column::PegRatio);
            cols.push(Column::PriceToSales);
            cols.push(Column::PriceToBook);
            cols.push(Column::PriceToCashFlow);
            cols.push(Column::PriceToFreeCashFlow);
            cols.push(Column::PriceToCash);
            cols.push(Column::EnterpriseValue);
            cols.push(Column::EvToRevenue);
            cols.push(Column::EvToEbit);
            cols.push(Column::EvToEbitda);
            assert(cols@ =~= columns_of(TabType::Valuation));
        },
        TabType::Dividends => {
            cols.push(Column::Code);
            cols.push(Column::Name);
            cols.push(Column::Price);
            cols.push(Column::DividendsPerShareYearly);
            cols.push(Column::DividendsPerShareQuarterly);
            cols.push(Column::DividendPayoutRatio);
            cols.push(Column::DividendsPerShareGrowth);
            cols.push(Column::ContinuousDividendPayout);
            cols.push(Column::ContinuousDividendGrowth);
            assert(cols@ =~= columns_of(TabType::Dividends));
        },
        TabType::Profitability => {
            cols.push(Column::Code);
            cols.push(Column::Name);
            cols.push(Column::Price);
            cols.push(Column::GrossMargin);
            cols.push(Column::OperatingMargin);
            cols.push(Column::ProfitMargin);
            cols.push(Column::PureMargin);
            cols.push(Column::FreeCashFlowMargin);
            cols.push(Column::Roi);
            cols.push(Column::Roe);
            cols.push(Column::Roic);
            cols.push(Column::RdRatio);
            cols.push(Column::SgaRatio);
            assert(cols@ =~= columns_of(TabType::Profitability));
        },
        TabType::IncomeStatement => {
            cols.push(Column::Code);
            cols.push(Column::Name);
            cols.push(Column::Price);
            cols.push(Column::TotalRevenue);
            cols.push(Column::RevenueGrowth);
            cols.push(Column::GrossProfit);
            cols.push(Column::OperatingIncome);
            cols.push(Column::NetIncome);
            cols.push(Column::Ebitda);
            cols.push(Column::EpsDiluted);
            cols.push(Column::EpsDilutedGrowth);
            assert(cols@ =~= columns_of(TabType::IncomeStatement));
        },
        TabType::BalanceSheet => {
            cols.push(Column::Code);
            cols.push(Column::Name);
            cols.push(Column::Price);
            cols.push(Column::TotalAssets);
            cols.push(Column::TotalCurrentAssets);
            cols.push(Column::CashAndShortTerm);
            cols.push(Column::TotalLiabilities);
            cols.push(Column::TotalDebt);
            cols.push(Column::NetDebt);
            cols.push(Column::TotalEquity);
            cols.push(Column::CurrentRatio);
            cols.push(Column::QuickRatio);
            cols.push(Column::DebtToEquity);
            cols.push(Column::CashToDebt);
            assert(cols@ =~= columns_of(TabType::BalanceSheet));
        },
        TabType::CashFlow => {
            cols.push(Column::Code);
            cols.push(Column::Name);
            cols.push(Column::Price);
            cols.push(Column::OperatingCashFlow);
            cols.push(Column::InvestingCashFlow);
            cols.push(Column::FinancingCashFlow);
            cols.push(Column::FreeCashFlow);
            cols.push(Column::CapitalExpenditures);
            assert(cols@ =~= columns_of(TabType::CashFlow));
        },
        TabType::Technicals => {
            cols.push(Column::Code);
            cols.push(Column::Name);
            cols.push(Column::Price);
            cols.push(Column::TechnicalRating);
            cols.push(Column::MaRating);
            cols.push(Column::OscillatorsRating);
            cols.push(Column::Rsi14);
            cols.push(Column::Momentum10);
            cols.push(Column::AwesomeOscillator);
            cols.push(Column::Cci20);
            cols.push(Column::StochasticK);
            cols.push(Column::StochasticD);
            cols.push(Column::CandlestickPattern);
            assert(cols@ =~= columns_of(TabType::Technicals));
        },
    }
    cols
}

/// The record `rec` after the text of one column has been read into it: texts
/// are taken as they are, decimals and percentages by [`micros_of_text`],
/// magnitudes by [`magnitude_of_text`], ratings by [`rating_of_text`].
pub open spec fn with_cell(rec: StockRecord, column: Column, text: Seq<char>) -> StockRecord {
    match column {
        Column::Code => StockRecord { code: text, ..rec },
        Column::Name => StockRecord { name: text, ..rec },
        Column::Price => StockRecord { price: micros_of_text(text), ..rec },
        Column::ChangePercent => StockRecord { change_percent: micros_of_text(text), ..rec },
        Column::Volume => StockRecord { volume: magnitude_of_text(text), ..rec },
        Column::RelativeVolume => StockRecord { relative_volume: micros_of_text(text), ..rec },
        Column::MarketCap => StockRecord { market_cap: magnitude_of_text(text), ..rec },
        Column::PeRatio => StockRecord { pe_ratio: micros_of_text(text), ..rec },
        Column::Eps => StockRecord { eps: micros_of_text(text), ..rec },
        Column::EarningsGrowth => StockRecord { earnings_growth: micros_of_text(text), ..rec },
        Column::DividendYield => StockRecord { dividend_yield: micros_of_text(text), ..rec },
        Column::Sector => StockRecord { sector: text, ..rec },
        Column::Rating => StockRecord { rating: rating_of_text(text), ..rec },
        Column::Performance1w => StockRecord { performance_1w: micros_of_text(text), ..rec },
        Column::Performance1m => StockRecord { performance_1m: micros_of_text(text), ..rec },
        Column::Performance3m => StockRecord { performance_3m: micros_of_text(text), ..rec },
        Column::Performance6m => StockRecord { performance_6m: micros_of_text(text), ..rec },
        Column::PerformanceYtd => StockRecord { performance_ytd: micros_of_text(text), ..rec },
        Column::Performance1y => StockRecord { performance_1y: micros_of_text(text), ..rec },
        Column::Performance5y => StockRecord { performance_5y: micros_of_text(text), ..rec },
        Column::Performance10y => StockRecord { performance_10y: micros_of_text(text), ..rec },
        Column::PerformanceAll => StockRecord { performance_all: micros_of_text(text), ..rec },
        Column::Volatility1w => StockRecord { volatility_1w: micros_of_text(text), ..rec },
        Column::Volatility1m => StockRecord { volatility_1m: micros_of_text(text), ..rec },
        Column::PreMarketClose => StockRecord { pre_market_close: micros_of_text(text), ..rec },
        Column::PreMarketChange => StockRecord { pre_market_change: micros_of_text(text), ..rec },
        Column::PreMarketGap => StockRecord { pre_market_gap: micros_of_text(text), ..rec },
        Column::PreMarketVolume => StockRecord {
            pre_market_volume: magnitude_of_text(text),
            ..rec
        },
        Column::Gap => StockRecord { gap: micros_of_text(text), ..rec },
        Column::VolumeChange => StockRecord { volume_change: micros_of_text(text), ..rec },
        Column::PostMarketClose => StockRecord { post_market_close: micros_of_text(text), ..rec },
        Column::PostMarketChange => StockRecord { post_market_change: micros_of_text(text), ..rec },
        Column::PostMarketVolume => StockRecord {
            post_market_volume: magnitude_of_text(text),
            ..rec
        },
        Column::MarketCapPerf1y => StockRecord { market_cap_perf_1y: micros_of_text(text), ..rec },
        Column::PegRatio => StockRecord { peg_ratio: micros_of_text(text), ..rec },
        Column::PriceToSales => StockRecord { price_to_sales: micros_of_text(text), ..rec },
        Column::PriceToBook => StockRecord { price_to_book: micros_of_text(text), ..rec },
        Column::PriceToCashFlow => StockRecord { price_to_cash_flow: micros_of_text(text), ..rec },
        Column::PriceToFreeCashFlow => StockRecord {
            price_to_free_cash_flow: micros_of_text(text),
            ..rec
        },
        Column::PriceToCash => StockRecord { price_to_cash: micros_of_text(text), ..rec },
        Column::EnterpriseValue => StockRecord { enterprise_value: magnitude_of_text(text), ..rec },
        Column::EvToRevenue => StockRecord { ev_to_revenue: micros_of_text(text), ..rec },
        Column::EvToEbit => StockRecord { ev_to_ebit: micros_of_text(text), ..rec },
        Column::EvToEbitda => StockRecord { ev_to_ebitda: micros_of_text(text), ..rec },
        Column::DividendsPerShareYearly => StockRecord {
            dividends_per_share_yearly: micros_of_text(text),
            ..rec
        },
        Column::DividendsPerShareQuarterly => StockRecord {
            dividends_per_share_quarterly: micros_of_text(text),
            ..rec
        },
        Column::DividendPayoutRatio => StockRecord {
            dividend_payout_ratio: micros_of_text(text),
            ..rec
        },
        Column::DividendsPerShareGrowth => StockRecord {
            dividends_per_share_growth: micros_of_text(text),
            ..rec
        },
        Column::ContinuousDividendPayout => StockRecord {
            continuous_dividend_payout: magnitude_of_text(text),
            ..rec
        },
        Column::ContinuousDividendGrowth => StockRecord {
            continuous_dividend_growth: magnitude_of_text(text),
            ..rec
        },
        Column::GrossMargin => StockRecord { gross_margin: micros_of_text(text), ..rec },
        Column::OperatingMargin => StockRecord { operating_margin: micros_of_text(text), ..rec },
        Column::ProfitMargin => StockRecord { profit_margin: micros_of_text(text), ..rec },
        Column::PureMargin => StockRecord { pure_margin: micros_of_text(text), ..rec },
        Column::FreeCashFlowMargin => StockRecord {
            free_cash_flow_margin: micros_of_text(text),
            ..rec
        },
        Column::Roi => StockRecord { roi: micros_of_text(text), ..rec },
        Column::Roe => StockRecord { roe: micros_of_text(text), ..rec },
        Column::Roic => StockRecord { roic: micros_of_text(text), ..rec },
        Column::RdRatio => StockRecord { rd_ratio: micros_of_text(text), ..rec },
        Column::SgaRatio => StockRecord { sga_ratio: micros_of_text(text), ..rec },
        Column::TotalRevenue => StockRecord { total_revenue: magnitude_of_text(text), ..rec },
        Column::RevenueGrowth => StockRecord { revenue_growth: micros_of_text(text), ..rec },
        Column::GrossProfit => StockRecord { gross_profit: magnitude_of_text(text), ..rec },
        Column::OperatingIncome => StockRecord { operating_income: magnitude_of_text(text), ..rec },
        Column::NetIncome => StockRecord { net_income: magnitude_of_text(text), ..rec },
        Column::Ebitda => StockRecord { ebitda: magnitude_of_text(text), ..rec },
        Column::EpsDiluted => StockRecord { eps_diluted: micros_of_text(text), ..rec },
        Column::EpsDilutedGrowth => StockRecord { eps_diluted_growth: micros_of_text(text), ..rec },
        Column::TotalAssets => StockRecord { total_assets: magnitude_of_text(text), ..rec },
        Column::TotalCurrentAssets => StockRecord {
            total_current_assets: magnitude_of_text(text),
            ..rec
        },
        Column::CashAndShortTerm => StockRecord {
            cash_and_short_term: magnitude_of_text(text),
            ..rec
        },
        Column::TotalLiabilities => StockRecord {
            total_liabilities: magnitude_of_text(text),
            ..rec
        },
        Column::TotalDebt => StockRecord { total_debt: magnitude_of_text(text), ..rec },
        Column::NetDebt => StockRecord { net_debt: magnitude_of_text(text), ..rec },
        Column::TotalEquity => StockRecord { total_equity: magnitude_of_text(text), ..rec },
        Column::CurrentRatio => StockRecord { current_ratio: micros_of_text(text), ..rec },
        Column::QuickRatio => StockRecord { quick_ratio: micros_of_text(text), ..rec },
        Column::DebtToEquity => StockRecord { debt_to_equity: micros_of_text(text), ..rec },
        Column::CashToDebt => StockRecord { cash_to_debt: micros_of_text(text), ..rec },
        Column::OperatingCashFlow => StockRecord {
            operating_cash_flow: magnitude_of_text(text),
            ..rec
        },
        Column::InvestingCashFlow => StockRecord {
            investing_cash_flow: magnitude_of_text(text),
            ..rec
        },
        Column::FinancingCashFlow => StockRecord {
            financing_cash_flow: magnitude_of_text(text),
            ..rec
        },
        Column::FreeCashFlow => StockRecord { free_cash_flow: magnitude_of_text(text), ..rec },
        Column::CapitalExpenditures => StockRecord {
            capital_expenditures: magnitude_of_text(text),
            ..rec
        },
        Column::TechnicalRating => StockRecord { technical_rating: rating_of_text(text), ..rec },
        Column::MaRating => StockRecord { ma_rating: rating_of_text(text), ..rec },
        Column::OscillatorsRating => StockRecord {
            oscillators_rating: rating_of_text(text),
            ..rec
        },
        Column::Rsi14 => StockRecord { rsi_14: micros_of_text(text), ..rec },
        Column::Momentum10 => StockRecord { momentum_10: micros_of_text(text), ..rec },
        Column::AwesomeOscillator => StockRecord {
            awesome_oscillator: micros_of_text(text),
            ..rec
        },
        Column::Cci20 => StockRecord { cci_20: micros_of_text(text), ..rec },
        Column::StochasticK => StockRecord { stochastic_k: micros_of_text(text), ..rec },
        Column::StochasticD => StockRecord { stochastic_d: micros_of_text(text), ..rec },
        Column::CandlestickPattern => StockRecord { candlestick_pattern: text, ..rec },
    }
}

impl StockData {
    /// Reads the text of one column into its field.
    pub fn set_cell(&mut self, column: Column, text: &str)
        ensures
            final(self)@ == with_cell(old(self)@, column, text@),
    {
        match column {
            Column::Code => {
                self.code = text.to_owned();
            },
            Column::Name => {
                self.name = text.to_owned();
            },
            Column::Price => {
                self.price = parse_f64(text);
            },
            Column::ChangePercent => {
                self.change_percent = parse_percentage(text);
            },
            Column::Volume => {
                self.volume = parse_large_number(text);
            },
            Column::RelativeVolume => {
                self.relative_volume = parse_f64(text);
            },
            Column::MarketCap => {
                self.market_cap = parse_large_number(text);
            },
            Column::PeRatio => {
                self.pe_ratio = parse_f64(text);
            },
            Column::Eps => {
                self.eps = parse_f64(text);
            },
            Column::EarningsGrowth => {
                self.earnings_growth = parse_percentage(text);
            },
            Column::DividendYield => {
                self.dividend_yield = parse_percentage(text);
            },
            Column::Sector => {
                self.sector = text.to_owned();
            },
            Column::Rating => {
                self.rating = Rating::from_str(text);
            },
            Column::Performance1w => {
                self.performance_1w = parse_percentage(text);
            },
            Column::Performance1m => {
                self.performance_1m = parse_percentage(text);
            },
            Column::Performance3m => {
                self.performance_3m = parse_percentage(text);
            },
            Column::Performance6m => {
                self.performance_6m = parse_percentage(text);
            },
            Column::PerformanceYtd => {
                self.performance_ytd = parse_percentage(text);
            },
            Column::Performance1y => {
                self.performance_1y = parse_percentage(text);
            },
            Column::Performance5y => {
                self.performance_5y = parse_percentage(text);
            },
            Column::Performance10y => {
                self.performance_10y = parse_percentage(text);
            },
            Column::PerformanceAll => {
                self.performance_all = parse_percentage(text);
            },
            Column::Volatility1w => {
                self.volatility_1w = parse_f64(text);
            },
            Column::Volatility1m => {
                self.volatility_1m = parse_f64(text);
            },
            Column::PreMarketClose => {
                self.pre_market_close = parse_f64(text);
            },
            Column::PreMarketChange => {
                self.pre_market_change = parse_percentage(text);
            },
            Column::PreMarketGap => {
                self.pre_market_gap = parse_percentage(text);
            },
            Column::PreMarketVolume => {
                self.pre_market_volume = parse_large_number(text);
            },
            Column::Gap => {
                self.gap = parse_percentage(text);
            },
            Column::VolumeChange => {
                self.volume_change = parse_percentage(text);
            },
            Column::PostMarketClose => {
                self.post_market_close = parse_f64(text);
            },
            Column::PostMarketChange => {
                self.post_market_change = parse_percentage(text);
            },
            Column::PostMarketVolume => {
                self.post_market_volume = parse_large_number(text);
            },
            Column::MarketCapPerf1y => {
                self.market_cap_perf_1y = parse_percentage(text);
            },
            Column::PegRatio => {
                self.peg_ratio = parse_f64(text);
            },
            Column::PriceToSales => {
                self.price_to_sales = parse_f64(text);
            },
            Column::PriceToBook => {
                self.price_to_book = parse_f64(text);
            },
            Column::PriceToCashFlow => {
                self.price_to_cash_flow = parse_f64(text);
            },
            Column::PriceToFreeCashFlow => {
                self.price_to_free_cash_flow = parse_f64(text);
            },
            Column::PriceToCash => {
                self.price_to_cash = parse_f64(text);
            },
            Column::EnterpriseValue => {
                self.enterprise_value = parse_large_number(text);
            },
            Column::EvToRevenue => {
                self.ev_to_revenue = parse_f64(text);
            },
            Column::EvToEbit => {
                self.ev_to_ebit = parse_f64(text);
            },
            Column::EvToEbitda => {
                self.ev_to_ebitda = parse_f64(text);
            },
            Column::DividendsPerShareYearly => {
                self.dividends_per_share_yearly = parse_f64(text);
            },
            Column::DividendsPerShareQuarterly => {
                self.dividends_per_share_quarterly = parse_f64(text);
            },
            Column::DividendPayoutRatio => {
                self.dividend_payout_ratio = parse_percentage(text);
            },
            Column::DividendsPerShareGrowth => {
                self.dividends_per_share_growth = parse_percentage(text);
            },
            Column::ContinuousDividendPayout => {
                self.continuous_dividend_payout = parse_large_number(text);
            },
            Column::ContinuousDividendGrowth => {
                self.continuous_dividend_growth = parse_large_number(text);
            },
            Column::GrossMargin => {
                self.gross_margin = parse_percentage(text);
            },
            Column::OperatingMargin => {
                self.operating_margin = parse_percentage(text);
            },
            Column::ProfitMargin => {
                self.profit_margin = parse_percentage(text);
            },
            Column::PureMargin => {
                self.pure_margin = parse_percentage(text);
            },
            Column::FreeCashFlowMargin => {
                self.free_cash_flow_margin = parse_percentage(text);
            },
            Column::Roi => {
                self.roi = parse_percentage(text);
            },
            Column::Roe => {
                self.roe = parse_percentage(text);
            },
            Column::Roic => {
                self.roic = parse_percentage(text);
            },
            Column::RdRatio => {
                self.rd_ratio = parse_percentage(text);
            },
            Column::SgaRatio => {
                self.sga_ratio = parse_percentage(text);
            },
            Column::TotalRevenue => {
                self.total_revenue = parse_large_number(text);
            },
            Column::RevenueGrowth => {
                self.revenue_growth = parse_percentage(text);
            },
            Column::GrossProfit => {
                self.gross_profit = parse_large_number(text);
            },
            Column::OperatingIncome => {
                self.operating_income = parse_large_number(text);
            },
            Column::NetIncome => {
                self.net_income = parse_large_number(text);
            },
            Column::Ebitda => {
                self.ebitda = parse_large_number(text);
            },
            Column::EpsDiluted => {
                self.eps_diluted = parse_f64(text);
            },
            Column::EpsDilutedGrowth => {
                self.eps_diluted_growth = parse_percentage(text);
            },
            Column::TotalAssets => {
                self.total_assets = parse_large_number(text);
            },
            Column::TotalCurrentAssets => {
                self.total_current_assets = parse_large_number(text);
            },
            Column::CashAndShortTerm => {
                self.cash_and_short_term = parse_large_number(text);
            },
            Column::TotalLiabilities => {
                self.total_liabilities = parse_large_number(text);
            },
            Column::TotalDebt => {
                self.total_debt = parse_large_number(text);
            },
            Column::NetDebt => {
                self.net_debt = parse_large_number(text);
            },
            Column::TotalEquity => {
                self.total_equity = parse_large_number(text);
            },
            Column::CurrentRatio => {
                self.current_ratio = parse_f64(text);
            },
            Column::QuickRatio => {
                self.quick_ratio = parse_f64(text);
            },
            Column::DebtToEquity => {
                self.debt_to_equity = parse_f64(text);
            },
            Column::CashToDebt => {
                self.cash_to_debt = parse_f64(text);
            },
            Column::OperatingCashFlow => {
                self.operating_cash_flow = parse_large_number(text);
            },
            Column::InvestingCashFlow => {
                self.investing_cash_flow = parse_large_number(text);
            },
            Column::FinancingCashFlow => {
                self.financing_cash_flow = parse_large_number(text);
            },
            Column::FreeCashFlow => {
                self.free_cash_flow = parse_large_number(text);
            },
            Column::CapitalExpenditures => {
                self.capital_expenditures = parse_large_number(text);
            },
            Column::TechnicalRating => {
                self.technical_rating = Rating::from_str(text);
            },
            Column::MaRating => {
                self.ma_rating = Rating::from_str(text);
            },
            Column::OscillatorsRating => {
                self.oscillators_rating = Rating::from_str(text);
            },
            Column::Rsi14 => {
                self.rsi_14 = parse_f64(text);
            },
            Column::Momentum10 => {
                self.momentum_10 = parse_f64(text);
            },
            Column::AwesomeOscillator => {
                self.awesome_oscillator = parse_f64(text);
            },
            Column::Cci20 => {
                self.cci_20 = parse_f64(text);
            },
            Column::StochasticK => {
                self.stochastic_k = parse_f64(text);
            },
            Column::StochasticD => {
                self.stochastic_d = parse_f64(text);
            },
            Column::CandlestickPattern => {
                self.candlestick_pattern = text.to_owned();
            },
        }
    }
}


/// One cell of a row: the text that was reported for a column.
#[derive(Debug)]
pub struct Cell {
    pub column: Column,
    pub text: String,
}

/// The mathematical content of a [`Cell`].
pub ghost struct CellModel {
    pub column: Column,
    pub text: Seq<char>,
}

impl View for Cell {
    type V = CellModel;

    open spec fn view(&self) -> CellModel {
        CellModel { column: self.column, text: self.text@ }
    }
}

impl DeepView for Cell {
    type V = CellModel;

    open spec fn deep_view(&self) -> CellModel {
        self@
    }
}

impl DeepView for StockData {
    type V = StockRecord;

    open spec fn deep_view(&self) -> StockRecord {
        self@
    }
}

impl Cell {
    /// The cell that reports `text` for `column`.
    pub fn new(column: Column, text: &str) -> (r: Cell)
        ensures
            r@ == (CellModel { column, text: text@ }),
    {
        Cell { column, text: text.to_owned() }
    }
}

/// The record `rec` after the cells have been read into it, one after the other.
pub open spec fn apply_cells(rec: StockRecord, cells: Seq<CellModel>) -> StockRecord
    decreases cells.len(),
{
    if cells.len() == 0 {
        rec
    } else {
        with_cell(apply_cells(rec, cells.drop_last()), cells.last().column, cells.last().text)
    }
}

/// Whether one of the cells reports the security's code.
pub open spec fn names_security(cells: Seq<CellModel>) -> bool {
    exists|i: int| 0 <= i < cells.len() && (#[trigger] cells[i]).column == Column::Code
}

/// The record that a row of cells gives: the cells read into a blank record, or
/// nothing where no cell reports the security's code.
pub open spec fn record_of_cells(cells: Seq<CellModel>) -> Option<StockRecord> {
    if names_security(cells) {
        Some(apply_cells(StockRecord::blank(), cells))
    } else {
        None
    }
}

/// The cells of a row: for each of the columns, in order, the text that the row
/// holds under the column's member name, where it holds one.
pub open spec fn cells_of_row(row: Map<Seq<char>, Seq<char>>, columns: Seq<Column>) -> Seq<
    CellModel,
>
    decreases columns.len(),
{
    if columns.len() == 0 {
        Seq::empty()
    } else {
        let head = cells_of_row(row, columns.drop_last());
        let column = columns.last();
        if row.contains_key(column.key_text()) {
            head.push(CellModel { column, text: row[column.key_text()] })
        } else {
            head
        }
    }
}

/// The records that the rows of a tab give, in the order of the rows; rows
/// without a security code are left out.
pub open spec fn records_of_rows(rows: Seq<Map<Seq<char>, Seq<char>>>, tab: TabType) -> Seq<
    StockRecord,
>
    decreases rows.len(),
{
    if rows.len() == 0 {
        Seq::empty()
    } else {
        let head = records_of_rows(rows.drop_last(), tab);
        match record_of_cells(cells_of_row(rows.last(), columns_of(tab))) {
            Some(record) => head.push(record),
            None => head,
        }
    }
}

impl StockData {
    /// Builds the record of a row from its cells, read in order into a blank
    /// record. A row in which no cell reports the code gives nothing.
    pub fn from_cells(cells: &Vec<Cell>) -> (r: Option<StockData>)
        ensures
            r.deep_view() == record_of_cells(cells.deep_view()),
    {
        let mut record = StockData::default();
        let mut named: bool = false;
        let mut i: usize = 0;
        while i < cells.len()
            invariant
                i <= cells.len(),
                record@ == apply_cells(StockRecord::blank(), cells.deep_view().take(i as int)),
                named == names_security(cells.deep_view().take(i as int)),
            decreases cells.len() - i,
        {
            let ghost before = cells.deep_view().take(i as int);
            let ghost after = cells.deep_view().take(i + 1);
            proof {
                assert(after.drop_last() == before);
                assert(after.last() == cells@[i as int]@);
                if names_security(before) {
                    let j = choose|j: int|
                        0 <= j < before.len() && (#[trigger] before[j]).column == Column::Code;
                    assert(after[j] == before[j]);
                }
                if names_security(after) && cells@[i as int].column != Column::Code {
                    let j = choose|j: int|
                        0 <= j < after.len() && (#[trigger] after[j]).column == Column::Code;
                    assert(before[j] == after[j]);
                }
                if cells@[i as int].column == Column::Code {
                    assert(after[i as int].column == Column::Code);
                }
            }
            record.set_cell(cells[i].column, cells[i].text.as_str());
            if cells[i].column == Column::Code {
                named = true;
            }
            i += 1;
        }
        assert(cells.deep_view().take(cells.len() as int) == cells.deep_view());
        if named {
            Some(record)
        } else {
            None
        }
    }
}

/// Collects the cells of row `row` of a document for the given columns.
fn row_cells(doc: &serde_json::Value, row: usize, columns: &Vec<Column>) -> (cells: Vec<Cell>)
    requires
        row < json_rows(*doc).len(),
    ensures
        cells.deep_view() == cells_of_row(json_rows(*doc)[row as int], columns@),
{
    let mut cells: Vec<Cell> = Vec::new();
    let mut i: usize = 0;
    assert(cells.deep_view() =~= Seq::<CellModel>::empty());
    while i < columns.len()
        invariant
            i <= columns.len(),
            row < json_rows(*doc).len(),
            cells.deep_view() == cells_of_row(
                json_rows(*doc)[row as int],
                columns@.take(i as int),
            ),
        decreases columns.len() - i,
    {
        let column: Column = columns[i];
        let ghost before = cells.deep_view();
        proof {
            let next = columns@.take(i + 1);
            assert(next.drop_last() == columns@.take(i as int));
            assert(next.last() == column);
        }
        match json_row_text(doc, row, column.key()) {
            Some(text) => {
                let ghost model = CellModel { column, text: text@ };
                cells.push(Cell { column, text });
                assert(cells.deep_view() =~= before.push(model));
            },
            None => {},
        }
        i += 1;
    }
    assert(columns@.take(columns.len() as int) == columns@);
    cells
}

/// Reads the records of one tab out of the document that the tab's extraction
/// script returned: one record per row that names a security, in row order.
pub fn parse_stock_data_from_json(js_data: serde_json::Value, tab: TabType) -> (r: Result<
    Vec<StockData>,
    FetchError,
>)
    ensures
        r is Ok,
        r->Ok_0.deep_view() == records_of_rows(json_rows(js_data), tab),
{
    let columns = tab_columns(tab);
    let n: usize = match json_row_count(&js_data) {
        Some(count) => count,
        None => 0,
    };
    let mut stocks: Vec<StockData> = Vec::new();
    let mut i: usize = 0;
    assert(stocks.deep_view() =~= Seq::<StockRecord>::empty());
    while i < n
        invariant
            i <= n == json_rows(js_data).len(),
            columns@ == columns_of(tab),
            stocks.deep_view() == records_of_rows(json_rows(js_data).take(i as int), tab),
        decreases n - i,
    {
        let ghost before = stocks.deep_view();
        proof {
            let next = json_rows(js_data).take(i + 1);
            assert(next.drop_last() == json_rows(js_data).take(i as int));
            assert(next.last() == json_rows(js_data)[i as int]);
        }
        let cells = row_cells(&js_data, i, &columns);
        match StockData::from_cells(&cells) {
            Some(stock) => {
                let ghost record = stock@;
                stocks.push(stock);
                assert(stocks.deep_view() =~= before.push(record));
            },
            None => {},
        }
        i += 1;
    }
    assert(json_rows(js_data).take(n as int) == json_rows(js_data));
    Ok(stocks)
}

/// The text that stands for the result of an extraction script: the text it
/// returned, or an empty JSON array where it returned no text.
pub open spec fn payload_text(payload: Option<Seq<char>>) -> Seq<char> {
    match payload {
        Some(text) => text,
        None => "[]"@,
    }
}

/// Reads the records of one tab out of what the tab's extraction script
/// returned. Text that is not well-formed JSON is a failure of the tab; a
/// script that returned no text gives no records.
pub fn parse_tab_payload(payload: Option<&str>, tab: TabType) -> (r: Result<
    Vec<StockData>,
    FetchError,
>)
    ensures
        match json_text_rows(payload_text(payload.deep_view())) {
            Some(rows) => r is Ok && r->Ok_0.deep_view() == records_of_rows(rows, tab),
            None => r == Err::<Vec<StockData>, FetchError>(FetchError::MalformedPayload),
        },
        payload is None ==> r is Ok && r->Ok_0.len() == 0,
{
    let text: &str = match payload {
        Some(text) => text,
        None => "[]",
    };
    match json_from_text(text) {
        Ok(doc) => {
            let parsed = parse_stock_data_from_json(doc, tab);
            assert(payload is None ==> parsed->Ok_0.deep_view().len() == 0);
            parsed
        },
        Err(_) => Err(FetchError::MalformedPayload),
    }
}

} // verus!
