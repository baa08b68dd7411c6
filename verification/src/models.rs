//! The record of one security, and the rule by which two records of the same
//! security are merged.
//!
//! A field that no source has filled holds its default: zero for a number, the
//! empty text, [`Rating::Unknown`] for a rating. Merging keeps what a record
//! already holds and fills only fields that still hold their default.

use crate::numbers::Decimal;
use crate::text::{chars_of, spells, trim, trimmed};
use vstd::prelude::*;

verus! {

/// An analyst or indicator rating.
#[derive(Clone, Copy, Debug, PartialEq, Eq, Structural, Hash)]
pub enum Rating {
    StrongBuy,
    Buy,
    Neutral,
    Sell,
    StrongSell,
    Unknown,
}

/// The rating that a label stands for, white space around it aside; a label
/// that is none of the five known ones stands for [`Rating::Unknown`].
pub open spec fn rating_of_text(s: Seq<char>) -> Rating {
    let t = trim(s);
    if t == "强烈买入"@ {
        Rating::StrongBuy
    } else if t == "买入"@ {
        Rating::Buy
    } else if t == "中立"@ {
        Rating::Neutral
    } else if t == "卖出"@ {
        Rating::Sell
    } else if t == "强烈卖出"@ {
        Rating::StrongSell
    } else {
        Rating::Unknown
    }
}

impl Rating {
    /// Reads a rating label.
    pub fn from_str(s: &str) -> (r: Rating)
        ensures
            r == rating_of_text(s@),
    {
        let t = trimmed(&chars_of(s));
        if spells(&t, "强烈买入") {
            Rating::StrongBuy
        } else if spells(&t, "买入") {
            Rating::Buy
        } else if spells(&t, "中立") {
            Rating::Neutral
        } else if spells(&t, "卖出") {
            Rating::Sell
        } else if spells(&t, "强烈卖出") {
            Rating::StrongSell
        } else {
            Rating::Unknown
        }
    }
}

impl Default for Rating {
    fn default() -> (r: Rating)
        ensures
            r == Rating::Unknown,
    {
        Rating::Unknown
    }
}

/// Everything known of one security. `code` identifies it and never changes.
#[derive(Debug)]
pub struct StockData {
    // Identity and last price
    /// The code that identifies the security.
    pub code: String,
    /// The name of the security.
    pub name: String,
    /// The last price.
    pub price: Decimal,
    // Overview
    /// The change of the price in percent; negative for a fall.
    pub change_percent: Decimal,
    /// The traded volume.
    pub volume: i64,
    /// The volume relative to its average.
    pub relative_volume: Decimal,
    /// The market capitalisation.
    pub market_cap: i64,
    /// Price to earnings.
    pub pe_ratio: Decimal,
    /// Earnings per share.
    pub eps: Decimal,
    /// The growth of earnings, in percent.
    pub earnings_growth: Decimal,
    /// The dividend yield, in percent.
    pub dividend_yield: Decimal,
    /// The sector.
    pub sector: String,
    /// The analysts' rating.
    pub rating: Rating,
    // Performance over time windows
    /// Performance over one week, in percent.
    pub performance_1w: Decimal,
    /// Performance over one month, in percent.
    pub performance_1m: Decimal,
    /// Performance over three months, in percent.
    pub performance_3m: Decimal,
    /// Performance over six months, in percent.
    pub performance_6m: Decimal,
    /// Performance since the start of the year, in percent.
    pub performance_ytd: Decimal,
    /// Performance over one year, in percent.
    pub performance_1y: Decimal,
    /// Performance over five years, in percent.
    pub performance_5y: Decimal,
    /// Performance over ten years, in percent.
    pub performance_10y: Decimal,
    /// Performance over all time, in percent.
    pub performance_all: Decimal,
    /// Volatility over one week.
    pub volatility_1w: Decimal,
    /// Volatility over one month.
    pub volatility_1m: Decimal,
    // Extended hours
    /// The price at the end of the pre-market session.
    pub pre_market_close: Decimal,
    /// The change in the pre-market session, in percent.
    pub pre_market_change: Decimal,
    /// The gap at the pre-market open, in percent.
    pub pre_market_gap: Decimal,
    /// The volume of the pre-market session.
    pub pre_market_volume: i64,
    /// The gap at the open, in percent.
    pub gap: Decimal,
    /// The change of the volume, in percent.
    pub volume_change: Decimal,
    /// The price at the end of the post-market session.
    pub post_market_close: Decimal,
    /// The change in the post-market session, in percent.
    pub post_market_change: Decimal,
    /// The volume of the post-market session.
    pub post_market_volume: i64,
    // Valuation
    /// The change of the market capitalisation over one year, in percent.
    pub market_cap_perf_1y: Decimal,
    /// Price to earnings to growth.
    pub peg_ratio: Decimal,
    /// Price to sales.
    pub price_to_sales: Decimal,
    /// Price to book value.
    pub price_to_book: Decimal,
    /// Price to cash flow.
    pub price_to_cash_flow: Decimal,
    /// Price to free cash flow.
    pub price_to_free_cash_flow: Decimal,
    /// Price to cash.
    pub price_to_cash: Decimal,
    /// The enterprise value.
    pub enterprise_value: i64,
    /// Enterprise value to revenue.
    pub ev_to_revenue: Decimal,
    /// Enterprise value to earnings before interest and taxes.
    pub ev_to_ebit: Decimal,
    /// Enterprise value to earnings before interest, taxes, depreciation and amortisation.
    pub ev_to_ebitda: Decimal,
    // Dividends
    /// Dividends per share, per year.
    pub dividends_per_share_yearly: Decimal,
    /// Dividends per share, per quarter.
    pub dividends_per_share_quarterly: Decimal,
    /// The share of earnings paid out as dividends, in percent.
    pub dividend_payout_ratio: Decimal,
    /// The growth of dividends per share, in percent.
    pub dividends_per_share_growth: Decimal,
    /// The years of dividends paid without a break.
    pub continuous_dividend_payout: i64,
    /// The years of dividends raised without a break.
    pub continuous_dividend_growth: i64,
    // Profitability
    /// The gross margin, in percent.
    pub gross_margin: Decimal,
    /// The operating margin, in percent.
    pub operating_margin: Decimal,
    /// The margin before taxes, in percent.
    pub profit_margin: Decimal,
    /// The net margin, in percent.
    pub pure_margin: Decimal,
    /// The free cash flow margin, in percent.
    pub free_cash_flow_margin: Decimal,
    /// Return on assets, in percent.
    pub roi: Decimal,
    /// Return on equity, in percent.
    pub roe: Decimal,
    /// Return on invested capital, in percent.
    pub roic: Decimal,
    /// Research and development expenses to revenue, in percent.
    pub rd_ratio: Decimal,
    /// Selling, general and administrative expenses to revenue, in percent.
    pub sga_ratio: Decimal,
    // Income statement
    /// Total revenue over the last twelve months.
    pub total_revenue: i64,
    /// The growth of revenue year on year, in percent.
    pub revenue_growth: Decimal,
    /// Gross profit over the last twelve months.
    pub gross_profit: i64,
    /// Operating income over the last twelve months.
    pub operating_income: i64,
    /// Net income over the last twelve months.
    pub net_income: i64,
    /// Earnings before interest, taxes, depreciation and amortisation over the last twelve
    /// months.
    pub ebitda: i64,
    /// Diluted earnings per share over the last twelve months.
    pub eps_diluted: Decimal,
    /// The growth of diluted earnings per share year on year, in percent.
    pub eps_diluted_growth: Decimal,
    // Balance sheet
    /// Total assets.
    pub total_assets: i64,
    /// Current assets.
    pub total_current_assets: i64,
    /// Cash and short-term investments.
    pub cash_and_short_term: i64,
    /// Total liabilities.
    pub total_liabilities: i64,
    /// Total debt.
    pub total_debt: i64,
    /// Net debt.
    pub net_debt: i64,
    /// Total equity.
    pub total_equity: i64,
    /// Current assets to current liabilities.
    pub current_ratio: Decimal,
    /// Liquid assets to current liabilities.
    pub quick_ratio: Decimal,
    /// Debt to equity.
    pub debt_to_equity: Decimal,
    /// Cash to debt.
    pub cash_to_debt: Decimal,
    // Cash flow
    /// Cash flow from operations.
    pub operating_cash_flow: i64,
    /// Cash flow from investing.
    pub investing_cash_flow: i64,
    /// Cash flow from financing.
    pub financing_cash_flow: i64,
    /// Free cash flow.
    pub free_cash_flow: i64,
    /// Capital expenditures.
    pub capital_expenditures: i64,
    // Technical indicators
    /// The rating by all technical indicators.
    pub technical_rating: Rating,
    /// The rating by moving averages.
    pub ma_rating: Rating,
    /// The rating by oscillators.
    pub oscillators_rating: Rating,
    /// Relative strength index over 14 periods.
    pub rsi_14: Decimal,
    /// Momentum over 10 periods.
    pub momentum_10: Decimal,
    /// The awesome oscillator.
    pub awesome_oscillator: Decimal,
    /// Commodity channel index over 20 periods.
    pub cci_20: Decimal,
    /// Stochastic %K.
    pub stochastic_k: Decimal,
    /// Stochastic %D.
    pub stochastic_d: Decimal,
    /// The name of the candlestick pattern.
    pub candlestick_pattern: String,
}

/// The mathematical content of a [`StockData`]: texts as character sequences,
/// decimals as millionths, magnitudes as integers.
pub ghost struct StockRecord {
    pub code: Seq<char>,
    pub name: Seq<char>,
    pub price: int,
    pub change_percent: int,
    pub volume: int,
    pub relative_volume: int,
    pub market_cap: int,
    pub pe_ratio: int,
    pub eps: int,
    pub earnings_growth: int,
    pub dividend_yield: int,
    pub sector: Seq<char>,
    pub rating: Rating,
    pub performance_1w: int,
    pub performance_1m: int,
    pub performance_3m: int,
    pub performance_6m: int,
    pub performance_ytd: int,
    pub performance_1y: int,
    pub performance_5y: int,
    pub performance_10y: int,
    pub performance_all: int,
    pub volatility_1w: int,
    pub volatility_1m: int,
    pub pre_market_close: int,
    pub pre_market_change: int,
    pub pre_market_gap: int,
    pub pre_market_volume: int,
    pub gap: int,
    pub volume_change: int,
    pub post_market_close: int,
    pub post_market_change: int,
    pub post_market_volume: int,
    pub market_cap_perf_1y: int,
    pub peg_ratio: int,
    pub price_to_sales: int,
    pub price_to_book: int,
    pub price_to_cash_flow: int,
    pub price_to_free_cash_flow: int,
    pub price_to_cash: int,
    pub enterprise_value: int,
    pub ev_to_revenue: int,
    pub ev_to_ebit: int,
    pub ev_to_ebitda: int,
    pub dividends_per_share_yearly: int,
    pub dividends_per_share_quarterly: int,
    pub dividend_payout_ratio: int,
    pub dividends_per_share_growth: int,
    pub continuous_dividend_payout: int,
    pub continuous_dividend_growth: int,
    pub gross_margin: int,
    pub operating_margin: int,
    pub profit_margin: int,
    pub pure_margin: int,
    pub free_cash_flow_margin: int,
    pub roi: int,
    pub roe: int,
    pub roic: int,
    pub rd_ratio: int,
    pub sga_ratio: int,
    pub total_revenue: int,
    pub revenue_growth: int,
    pub gross_profit: int,
    pub operating_income: int,
    pub net_income: int,
    pub ebitda: int,
    pub eps_diluted: int,
    pub eps_diluted_growth: int,
    pub total_assets: int,
    pub total_current_assets: int,
    pub cash_and_short_term: int,
    pub total_liabilities: int,
    pub total_debt: int,
    pub net_debt: int,
    pub total_equity: int,
    pub current_ratio: int,
    pub quick_ratio: int,
    pub debt_to_equity: int,
    pub cash_to_debt: int,
    pub operating_cash_flow: int,
    pub investing_cash_flow: int,
    pub financing_cash_flow: int,
    pub free_cash_flow: int,
    pub capital_expenditures: int,
    pub technical_rating: Rating,
    pub ma_rating: Rating,
    pub oscillators_rating: Rating,
    pub rsi_14: int,
    pub momentum_10: int,
    pub awesome_oscillator: int,
    pub cci_20: int,
    pub stochastic_k: int,
    pub stochastic_d: int,
    pub candlestick_pattern: Seq<char>,
}

impl View for StockData {
    type V = StockRecord;

    open spec fn view(&self) -> StockRecord {
        StockRecord {
            code: self.code@,
            name: self.name@,
            price: self.price@,
            change_percent: self.change_percent@,
            volume: self.volume as int,
            relative_volume: self.relative_volume@,
            market_cap: self.market_cap as int,
            pe_ratio: self.pe_ratio@,
            eps: self.eps@,
            earnings_growth: self.earnings_growth@,
            dividend_yield: self.dividend_yield@,
            sector: self.sector@,
            rating: self.rating,
            performance_1w: self.performance_1w@,
            performance_1m: self.performance_1m@,
            performance_3m: self.performance_3m@,
            performance_6m: self.performance_6m@,
            performance_ytd: self.performance_ytd@,
            performance_1y: self.performance_1y@,
            performance_5y: self.performance_5y@,
            performance_10y: self.performance_10y@,
            performance_all: self.performance_all@,
            volatility_1w: self.volatility_1w@,
            volatility_1m: self.volatility_1m@,
            pre_market_close: self.pre_market_close@,
            pre_market_change: self.pre_market_change@,
            pre_market_gap: self.pre_market_gap@,
            pre_market_volume: self.pre_market_volume as int,
            gap: self.gap@,
            volume_change: self.volume_change@,
            post_market_close: self.post_market_close@,
            post_market_change: self.post_market_change@,
            post_market_volume: self.post_market_volume as int,
            market_cap_perf_1y: self.market_cap_perf_1y@,
            peg_ratio: self.peg_ratio@,
            price_to_sales: self.price_to_sales@,
            price_to_book: self.price_to_book@,
            price_to_cash_flow: self.price_to_cash_flow@,
            price_to_free_cash_flow: self.price_to_free_cash_flow@,
            price_to_cash: self.price_to_cash@,
            enterprise_value: self.enterprise_value as int,
            ev_to_revenue: self.ev_to_revenue@,
            ev_to_ebit: self.ev_to_ebit@,
            ev_to_ebitda: self.ev_to_ebitda@,
            dividends_per_share_yearly: self.dividends_per_share_yearly@,
            dividends_per_share_quarterly: self.dividends_per_share_quarterly@,
            dividend_payout_ratio: self.dividend_payout_ratio@,
            dividends_per_share_growth: self.dividends_per_share_growth@,
            continuous_dividend_payout: self.continuous_dividend_payout as int,
            continuous_dividend_growth: self.continuous_dividend_growth as int,
            gross_margin: self.gross_margin@,
            operating_margin: self.operating_margin@,
            profit_margin: self.profit_margin@,
            pure_margin: self.pure_margin@,
            free_cash_flow_margin: self.free_cash_flow_margin@,
            roi: self.roi@,
            roe: self.roe@,
            roic: self.roic@,
            rd_ratio: self.rd_ratio@,
            sga_ratio: self.sga_ratio@,
            total_revenue: self.total_revenue as int,
            revenue_growth: self.revenue_growth@,
            gross_profit: self.gross_profit as int,
            operating_income: self.operating_income as int,
            net_income: self.net_income as int,
            ebitda: self.ebitda as int,
            eps_diluted: self.eps_diluted@,
            eps_diluted_growth: self.eps_diluted_growth@,
            total_assets: self.total_assets as int,
            total_current_assets: self.total_current_assets as int,
            cash_and_short_term: self.cash_and_short_term as int,
            total_liabilities: self.total_liabilities as int,
            total_debt: self.total_debt as int,
            net_debt: self.net_debt as int,
            total_equity: self.total_equity as int,
            current_ratio: self.current_ratio@,
            quick_ratio: self.quick_ratio@,
            debt_to_equity: self.debt_to_equity@,
            cash_to_debt: self.cash_to_debt@,
            operating_cash_flow: self.operating_cash_flow as int,
            investing_cash_flow: self.investing_cash_flow as int,
            financing_cash_flow: self.financing_cash_flow as int,
            free_cash_flow: self.free_cash_flow as int,
            capital_expenditures: self.capital_expenditures as int,
            technical_rating: self.technical_rating,
            ma_rating: self.ma_rating,
            oscillators_rating: self.oscillators_rating,
            rsi_14: self.rsi_14@,
            momentum_10: self.momentum_10@,
            awesome_oscillator: self.awesome_oscillator@,
            cci_20: self.cci_20@,
            stochastic_k: self.stochastic_k@,
            stochastic_d: self.stochastic_d@,
            candlestick_pattern: self.candlestick_pattern@,
        }
    }
}

impl StockRecord {
    /// The record in which every field holds its default.
    pub open spec fn blank() -> StockRecord {
        StockRecord {
            code: Seq::empty(),
            name: Seq::empty(),
            price: 0,
            change_percent: 0,
            volume: 0,
            relative_volume: 0,
            market_cap: 0,
            pe_ratio: 0,
            eps: 0,
            earnings_growth: 0,
            dividend_yield: 0,
            sector: Seq::empty(),
            rating: Rating::Unknown,
            performance_1w: 0,
            performance_1m: 0,
            performance_3m: 0,
            performance_6m: 0,
            performance_ytd: 0,
            performance_1y: 0,
            performance_5y: 0,
            performance_10y: 0,
            performance_all: 0,
            volatility_1w: 0,
            volatility_1m: 0,
            pre_market_close: 0,
            pre_market_change: 0,
            pre_market_gap: 0,
            pre_market_volume: 0,
            gap: 0,
            volume_change: 0,
            post_market_close: 0,
            post_market_change: 0,
            post_market_volume: 0,
            market_cap_perf_1y: 0,
            peg_ratio: 0,
            price_to_sales: 0,
            price_to_book: 0,
            price_to_cash_flow: 0,
            price_to_free_cash_flow: 0,
            price_to_cash: 0,
            enterprise_value: 0,
            ev_to_revenue: 0,
            ev_to_ebit: 0,
            ev_to_ebitda: 0,
            dividends_per_share_yearly: 0,
            dividends_per_share_quarterly: 0,
            dividend_payout_ratio: 0,
            dividends_per_share_growth: 0,
            continuous_dividend_payout: 0,
            continuous_dividend_growth: 0,
            gross_margin: 0,
            operating_margin: 0,
            profit_margin: 0,
            pure_margin: 0,
            free_cash_flow_margin: 0,
            roi: 0,
            roe: 0,
            roic: 0,
            rd_ratio: 0,
            sga_ratio: 0,
            total_revenue: 0,
            revenue_growth: 0,
            gross_profit: 0,
            operating_income: 0,
            net_income: 0,
            ebitda: 0,
            eps_diluted: 0,
            eps_diluted_growth: 0,
            total_assets: 0,
            total_current_assets: 0,
            cash_and_short_term: 0,
            total_liabilities: 0,
            total_debt: 0,
            net_debt: 0,
            total_equity: 0,
            current_ratio: 0,
            quick_ratio: 0,
            debt_to_equity: 0,
            cash_to_debt: 0,
            operating_cash_flow: 0,
            investing_cash_flow: 0,
            financing_cash_flow: 0,
            free_cash_flow: 0,
            capital_expenditures: 0,
            technical_rating: Rating::Unknown,
            ma_rating: Rating::Unknown,
            oscillators_rating: Rating::Unknown,
            rsi_14: 0,
            momentum_10: 0,
            awesome_oscillator: 0,
            cci_20: 0,
            stochastic_k: 0,
            stochastic_d: 0,
            candlestick_pattern: Seq::empty(),
        }
    }
}

/// What a numeric field holds after an offer: the offered number where the field
/// held zero and the offer is not zero, else what it held.
pub open spec fn first_number(kept: int, offered: int) -> int {
    if kept == 0 && offered != 0 {
        offered
    } else {
        kept
    }
}

/// What a text field holds after an offer: the offered text where the field was
/// empty and the offer is not, else what it held.
pub open spec fn first_text(kept: Seq<char>, offered: Seq<char>) -> Seq<char> {
    if kept.len() == 0 && offered.len() != 0 {
        offered
    } else {
        kept
    }
}

/// What a rating field holds after an offer: the offered rating where the field
/// was unknown and the offer is not, else what it held.
pub open spec fn first_rating(kept: Rating, offered: Rating) -> Rating {
    if kept == Rating::Unknown && offered != Rating::Unknown {
        offered
    } else {
        kept
    }
}

/// The record `dest` after the record `src` has been merged into it: the code of
/// `dest`, and in every other field the first value that is not the default.
pub open spec fn merged(dest: StockRecord, src: StockRecord) -> StockRecord {
    StockRecord {
        code: dest.code,
        name: first_text(dest.name, src.name),
        price: first_number(dest.price, src.price),
        change_percent: first_number(dest.change_percent, src.change_percent),
        volume: first_number(dest.volume, src.volume),
        relative_volume: first_number(dest.relative_volume, src.relative_volume),
        market_cap: first_number(dest.market_cap, src.market_cap),
        pe_ratio: first_number(dest.pe_ratio, src.pe_ratio),
        eps: first_number(dest.eps, src.eps),
        earnings_growth: first_number(dest.earnings_growth, src.earnings_growth),
        dividend_yield: first_number(dest.dividend_yield, src.dividend_yield),
        sector: first_text(dest.sector, src.sector),
        rating: first_rating(dest.rating, src.rating),
        performance_1w: first_number(dest.performance_1w, src.performance_1w),
        performance_1m: first_number(dest.performance_1m, src.performance_1m),
        performance_3m: first_number(dest.performance_3m, src.performance_3m),
        performance_6m: first_number(dest.performance_6m, src.performance_6m),
        performance_ytd: first_number(dest.performance_ytd, src.performance_ytd),
        performance_1y: first_number(dest.performance_1y, src.performance_1y),
        performance_5y: first_number(dest.performance_5y, src.performance_5y),
        performance_10y: first_number(dest.performance_10y, src.performance_10y),
        performance_all: first_number(dest.performance_all, src.performance_all),
        volatility_1w: first_number(dest.volatility_1w, src.volatility_1w),
        volatility_1m: first_number(dest.volatility_1m, src.volatility_1m),
        pre_market_close: first_number(dest.pre_market_close, src.pre_market_close),
        pre_market_change: first_number(dest.pre_market_change, src.pre_market_change),
        pre_market_gap: first_number(dest.pre_market_gap, src.pre_market_gap),
        pre_market_volume: first_number(dest.pre_market_volume, src.pre_market_volume),
        gap: first_number(dest.gap, src.gap),
        volume_change: first_number(dest.volume_change, src.volume_change),
        post_market_close: first_number(dest.post_market_close, src.post_market_close),
        post_market_change: first_number(dest.post_market_change, src.post_market_change),
        post_market_volume: first_number(dest.post_market_volume, src.post_market_volume),
        market_cap_perf_1y: first_number(dest.market_cap_perf_1y, src.market_cap_perf_1y),
        peg_ratio: first_number(dest.peg_ratio, src.peg_ratio),
        price_to_sales: first_number(dest.price_to_sales, src.price_to_sales),
        price_to_book: first_number(dest.price_to_book, src.price_to_book),
        price_to_cash_flow: first_number(dest.price_to_cash_flow, src.price_to_cash_flow),
        price_to_free_cash_flow: first_number(
            dest.price_to_free_cash_flow,
            src.price_to_free_cash_flow,
        ),
        price_to_cash: first_number(dest.price_to_cash, src.price_to_cash),
        enterprise_value: first_number(dest.enterprise_value, src.enterprise_value),
        ev_to_revenue: first_number(dest.ev_to_revenue, src.ev_to_revenue),
        ev_to_ebit: first_number(dest.ev_to_ebit, src.ev_to_ebit),
        ev_to_ebitda: first_number(dest.ev_to_ebitda, src.ev_to_ebitda),
        dividends_per_share_yearly: first_number(
            dest.dividends_per_share_yearly,
            src.dividends_per_share_yearly,
        ),
        dividends_per_share_quarterly: first_number(
            dest.dividends_per_share_quarterly,
            src.dividends_per_share_quarterly,
        ),
        dividend_payout_ratio: first_number(dest.dividend_payout_ratio, src.dividend_payout_ratio),
        dividends_per_share_growth: first_number(
            dest.dividends_per_share_growth,
            src.dividends_per_share_growth,
        ),
        continuous_dividend_payout: first_number(
            dest.continuous_dividend_payout,
            src.continuous_dividend_payout,
        ),
        continuous_dividend_growth: first_number(
            dest.continuous_dividend_growth,
            src.continuous_dividend_growth,
        ),
        gross_margin: first_number(dest.gross_margin, src.gross_margin),
        operating_margin: first_number(dest.operating_margin, src.operating_margin),
        profit_margin: first_number(dest.profit_margin, src.profit_margin),
        pure_margin: first_number(dest.pure_margin, src.pure_margin),
        free_cash_flow_margin: first_number(dest.free_cash_flow_margin, src.free_cash_flow_margin),
        roi: first_number(dest.roi, src.roi),
        roe: first_number(dest.roe, src.roe),
        roic: first_number(dest.roic, src.roic),
        rd_ratio: first_number(dest.rd_ratio, src.rd_ratio),
        sga_ratio: first_number(dest.sga_ratio, src.sga_ratio),
        total_revenue: first_number(dest.total_revenue, src.total_revenue),
        revenue_growth: first_number(dest.revenue_growth, src.revenue_growth),
        gross_profit: first_number(dest.gross_profit, src.gross_profit),
        operating_income: first_number(dest.operating_income, src.operating_income),
        net_income: first_number(dest.net_income, src.net_income),
        ebitda: first_number(dest.ebitda, src.ebitda),
        eps_diluted: first_number(dest.eps_diluted, src.eps_diluted),
        eps_diluted_growth: first_number(dest.eps_diluted_growth, src.eps_diluted_growth),
        total_assets: first_number(dest.total_assets, src.total_assets),
        total_current_assets: first_number(dest.total_current_assets, src.total_current_assets),
        cash_and_short_term: first_number(dest.cash_and_short_term, src.cash_and_short_term),
        total_liabilities: first_number(dest.total_liabilities, src.total_liabilities),
        total_debt: first_number(dest.total_debt, src.total_debt),
        net_debt: first_number(dest.net_debt, src.net_debt),
        total_equity: first_number(dest.total_equity, src.total_equity),
        current_ratio: first_number(dest.current_ratio, src.current_ratio),
        quick_ratio: first_number(dest.quick_ratio, src.quick_ratio),
        debt_to_equity: first_number(dest.debt_to_equity, src.debt_to_equity),
        cash_to_debt: first_number(dest.cash_to_debt, src.cash_to_debt),
        operating_cash_flow: first_number(dest.operating_cash_flow, src.operating_cash_flow),
        investing_cash_flow: first_number(dest.investing_cash_flow, src.investing_cash_flow),
        financing_cash_flow: first_number(dest.financing_cash_flow, src.financing_cash_flow),
        free_cash_flow: first_number(dest.free_cash_flow, src.free_cash_flow),
        capital_expenditures: first_number(dest.capital_expenditures, src.capital_expenditures),
        technical_rating: first_rating(dest.technical_rating, src.technical_rating),
        ma_rating: first_rating(dest.ma_rating, src.ma_rating),
        oscillators_rating: first_rating(dest.oscillators_rating, src.oscillators_rating),
        rsi_14: first_number(dest.rsi_14, src.rsi_14),
        momentum_10: first_number(dest.momentum_10, src.momentum_10),
        awesome_oscillator: first_number(dest.awesome_oscillator, src.awesome_oscillator),
        cci_20: first_number(dest.cci_20, src.cci_20),
        stochastic_k: first_number(dest.stochastic_k, src.stochastic_k),
        stochastic_d: first_number(dest.stochastic_d, src.stochastic_d),
        candlestick_pattern: first_text(dest.candlestick_pattern, src.candlestick_pattern),
    }
}

fn pick_decimal(kept: Decimal, offered: Decimal) -> (r: Decimal)
    ensures
        r@ == first_number(kept@, offered@),
{
    if kept.micros == 0 && offered.micros != 0 {
        offered
    } else {
        kept
    }
}

fn pick_integer(kept: i64, offered: i64) -> (r: i64)
    ensures
        r == first_number(kept as int, offered as int),
{
    if kept == 0 && offered != 0 {
        offered
    } else {
        kept
    }
}

fn pick_rating(kept: Rating, offered: Rating) -> (r: Rating)
    ensures
        r == first_rating(kept, offered),
{
    if kept == Rating::Unknown && offered != Rating::Unknown {
        offered
    } else {
        kept
    }
}

fn pick_text(kept: &String, offered: &String) -> (r: String)
    ensures
        r@ == first_text(kept@, offered@),
{
    if kept.as_str().is_empty() && !offered.as_str().is_empty() {
        offered.clone()
    } else {
        kept.clone()
    }
}

/// Merges `src` into `dest`: every field of `dest` that still holds its default
/// takes the value of `src`; a field that is already filled keeps its value.
pub fn merge_stock_data(dest: &mut StockData, src: &StockData)
    ensures
        final(dest)@ == merged(old(dest)@, src@),
{
    dest.name = pick_text(&dest.name, &src.name);
    dest.price = pick_decimal(dest.price, src.price);
    dest.change_percent = pick_decimal(dest.change_percent, src.change_percent);
    dest.volume = pick_integer(dest.volume, src.volume);
    dest.relative_volume = pick_decimal(dest.relative_volume, src.relative_volume);
    dest.market_cap = pick_integer(dest.market_cap, src.market_cap);
    dest.pe_ratio = pick_decimal(dest.pe_ratio, src.pe_ratio);
    dest.eps = pick_decimal(dest.eps, src.eps);
    dest.earnings_growth = pick_decimal(dest.earnings_growth, src.earnings_growth);
    dest.dividend_yield = pick_decimal(dest.dividend_yield, src.dividend_yield);
    dest.sector = pick_text(&dest.sector, &src.sector);
    dest.rating = pick_rating(dest.rating, src.rating);
    dest.performance_1w = pick_decimal(dest.performance_1w, src.performance_1w);
    dest.performance_1m = pick_decimal(dest.performance_1m, src.performance_1m);
    dest.performance_3m = pick_decimal(dest.performance_3m, src.performance_3m);
    dest.performance_6m = pick_decimal(dest.performance_6m, src.performance_6m);
    dest.performance_ytd = pick_decimal(dest.performance_ytd, src.performance_ytd);
    dest.performance_1y = pick_decimal(dest.performance_1y, src.performance_1y);
    dest.performance_5y = pick_decimal(dest.performance_5y, src.performance_5y);
    dest.performance_10y = pick_decimal(dest.performance_10y, src.performance_10y);
    dest.performance_all = pick_decimal(dest.performance_all, src.performance_all);
    dest.volatility_1w = pick_decimal(dest.volatility_1w, src.volatility_1w);
    dest.volatility_1m = pick_decimal(dest.volatility_1m, src.volatility_1m);
    dest.pre_market_close = pick_decimal(dest.pre_market_close, src.pre_market_close);
    dest.pre_market_change = pick_decimal(dest.pre_market_change, src.pre_market_change);
    dest.pre_market_gap = pick_decimal(dest.pre_market_gap, src.pre_market_gap);
    dest.pre_market_volume = pick_integer(dest.pre_market_volume, src.pre_market_volume);
    dest.gap = pick_decimal(dest.gap, src.gap);
    dest.volume_change = pick_decimal(dest.volume_change, src.volume_change);
    dest.post_market_close = pick_decimal(dest.post_market_close, src.post_market_close);
    dest.post_market_change = pick_decimal(dest.post_market_change, src.post_market_change);
    dest.post_market_volume = pick_integer(dest.post_market_volume, src.post_market_volume);
    dest.market_cap_perf_1y = pick_decimal(dest.market_cap_perf_1y, src.market_cap_perf_1y);
    dest.peg_ratio = pick_decimal(dest.peg_ratio, src.peg_ratio);
    dest.price_to_sales = pick_decimal(dest.price_to_sales, src.price_to_sales);
    dest.price_to_book = pick_decimal(dest.price_to_book, src.price_to_book);
    dest.price_to_cash_flow = pick_decimal(dest.price_to_cash_flow, src.price_to_cash_flow);
    dest.price_to_free_cash_flow = pick_decimal(
        dest.price_to_free_cash_flow,
        src.price_to_free_cash_flow,
    );
    dest.price_to_cash = pick_decimal(dest.price_to_cash, src.price_to_cash);
    dest.enterprise_value = pick_integer(dest.enterprise_value, src.enterprise_value);
    dest.ev_to_revenue = pick_decimal(dest.ev_to_revenue, src.ev_to_revenue);
    dest.ev_to_ebit = pick_decimal(dest.ev_to_ebit, src.ev_to_ebit);
    dest.ev_to_ebitda = pick_decimal(dest.ev_to_ebitda, src.ev_to_ebitda);
    dest.dividends_per_share_yearly = pick_decimal(
        dest.dividends_per_share_yearly,
        src.dividends_per_share_yearly,
    );
    dest.dividends_per_share_quarterly = pick_decimal(
        dest.dividends_per_share_quarterly,
        src.dividends_per_share_quarterly,
    );
    dest.dividend_payout_ratio = pick_decimal(
        dest.dividend_payout_ratio,
        src.dividend_payout_ratio,
    );
    dest.dividends_per_share_growth = pick_decimal(
        dest.dividends_per_share_growth,
        src.dividends_per_share_growth,
    );
    dest.continuous_dividend_payout = pick_integer(
        dest.continuous_dividend_payout,
        src.continuous_dividend_payout,
    );
    dest.continuous_dividend_growth = pick_integer(
        dest.continuous_dividend_growth,
        src.continuous_dividend_growth,
    );
    dest.gross_margin = pick_decimal(dest.gross_margin, src.gross_margin);
    dest.operating_margin = pick_decimal(dest.operating_margin, src.operating_margin);
    dest.profit_margin = pick_decimal(dest.profit_margin, src.profit_margin);
    dest.pure_margin = pick_decimal(dest.pure_margin, src.pure_margin);
    dest.free_cash_flow_margin = pick_decimal(
        dest.free_cash_flow_margin,
        src.free_cash_flow_margin,
    );
    dest.roi = pick_decimal(dest.roi, src.roi);
    dest.roe = pick_decimal(dest.roe, src.roe);
    dest.roic = pick_decimal(dest.roic, src.roic);
    dest.rd_ratio = pick_decimal(dest.rd_ratio, src.rd_ratio);
    dest.sga_ratio = pick_decimal(dest.sga_ratio, src.sga_ratio);
    dest.total_revenue = pick_integer(dest.total_revenue, src.total_revenue);
    dest.revenue_growth = pick_decimal(dest.revenue_growth, src.revenue_growth);
    dest.gross_profit = pick_integer(dest.gross_profit, src.gross_profit);
    dest.operating_income = pick_integer(dest.operating_income, src.operating_income);
    dest.net_income = pick_integer(dest.net_income, src.net_income);
    dest.ebitda = pick_integer(dest.ebitda, src.ebitda);
    dest.eps_diluted = pick_decimal(dest.eps_diluted, src.eps_diluted);
    dest.eps_diluted_growth = pick_decimal(dest.eps_diluted_growth, src.eps_diluted_growth);
    dest.total_assets = pick_integer(dest.total_assets, src.total_assets);
    dest.total_current_assets = pick_integer(dest.total_current_assets, src.total_current_assets);
    dest.cash_and_short_term = pick_integer(dest.cash_and_short_term, src.cash_and_short_term);
    dest.total_liabilities = pick_integer(dest.total_liabilities, src.total_liabilities);
    dest.total_debt = pick_integer(dest.total_debt, src.total_debt);
    dest.net_debt = pick_integer(dest.net_debt, src.net_debt);
    dest.total_equity = pick_integer(dest.total_equity, src.total_equity);
    dest.current_ratio = pick_decimal(dest.current_ratio, src.current_ratio);
    dest.quick_ratio = pick_decimal(dest.quick_ratio, src.quick_ratio);
    dest.debt_to_equity = pick_decimal(dest.debt_to_equity, src.debt_to_equity);
    dest.cash_to_debt = pick_decimal(dest.cash_to_debt, src.cash_to_debt);
    dest.operating_cash_flow = pick_integer(dest.operating_cash_flow, src.operating_cash_flow);
    dest.investing_cash_flow = pick_integer(dest.investing_cash_flow, src.investing_cash_flow);
    dest.financing_cash_flow = pick_integer(dest.financing_cash_flow, src.financing_cash_flow);
    dest.free_cash_flow = pick_integer(dest.free_cash_flow, src.free_cash_flow);
    dest.capital_expenditures = pick_integer(dest.capital_expenditures, src.capital_expenditures);
    dest.technical_rating = pick_rating(dest.technical_rating, src.technical_rating);
    dest.ma_rating = pick_rating(dest.ma_rating, src.ma_rating);
    dest.oscillators_rating = pick_rating(dest.oscillators_rating, src.oscillators_rating);
    dest.rsi_14 = pick_decimal(dest.rsi_14, src.rsi_14);
    dest.momentum_10 = pick_decimal(dest.momentum_10, src.momentum_10);
    dest.awesome_oscillator = pick_decimal(dest.awesome_oscillator, src.awesome_oscillator);
    dest.cci_20 = pick_decimal(dest.cci_20, src.cci_20);
    dest.stochastic_k = pick_decimal(dest.stochastic_k, src.stochastic_k);
    dest.stochastic_d = pick_decimal(dest.stochastic_d, src.stochastic_d);
    dest.candlestick_pattern = pick_text(&dest.candlestick_pattern, &src.candlestick_pattern);
}


/// Merging a record into itself changes nothing.
pub proof fn lemma_merged_idempotent(a: StockRecord)
    ensures
        merged(a, a) == a,
{
}

/// Merging is associative: it does not matter whether two later records are
/// merged one after the other or merged with each other first.
pub proof fn lemma_merged_associative(a: StockRecord, b: StockRecord, c: StockRecord)
    ensures
        merged(merged(a, b), c) == merged(a, merged(b, c)),
{
}

/// A record that has been merged in brings nothing new when it is merged in again,
/// also after other records have been merged in since.
pub proof fn lemma_merged_absorbs(a: StockRecord, b: StockRecord, c: StockRecord)
    requires
        merged(a, b) == a,
    ensures
        merged(merged(a, c), b) == merged(a, c),
        merged(merged(a, b), b) == merged(a, b),
        merged(merged(c, b), b) == merged(c, b),
{
}

impl Default for StockData {
    fn default() -> (r: StockData)
        ensures
            r@ == StockRecord::blank(),
    {
        StockData {
            code: String::new(),
            name: String::new(),
            price: Decimal::zero(),
            change_percent: Decimal::zero(),
            volume: 0,
            relative_volume: Decimal::zero(),
            market_cap: 0,
            pe_ratio: Decimal::zero(),
            eps: Decimal::zero(),
            earnings_growth: Decimal::zero(),
            dividend_yield: Decimal::zero(),
            sector: String::new(),
            rating: Rating::Unknown,
            performance_1w: Decimal::zero(),
            performance_1m: Decimal::zero(),
            performance_3m: Decimal::zero(),
            performance_6m: Decimal::zero(),
            performance_ytd: Decimal::zero(),
            performance_1y: Decimal::zero(),
            performance_5y: Decimal::zero(),
            performance_10y: Decimal::zero(),
            performance_all: Decimal::zero(),
            volatility_1w: Decimal::zero(),
            volatility_1m: Decimal::zero(),
            pre_market_close: Decimal::zero(),
            pre_market_change: Decimal::zero(),
            pre_market_gap: Decimal::zero(),
            pre_market_volume: 0,
            gap: Decimal::zero(),
            volume_change: Decimal::zero(),
            post_market_close: Decimal::zero(),
            post_market_change: Decimal::zero(),
            post_market_volume: 0,
            market_cap_perf_1y: Decimal::zero(),
            peg_ratio: Decimal::zero(),
            price_to_sales: Decimal::zero(),
            price_to_book: Decimal::zero(),
            price_to_cash_flow: Decimal::zero(),
            price_to_free_cash_flow: Decimal::zero(),
            price_to_cash: Decimal::zero(),
            enterprise_value: 0,
            ev_to_revenue: Decimal::zero(),
            ev_to_ebit: Decimal::zero(),
            ev_to_ebitda: Decimal::zero(),
            dividends_per_share_yearly: Decimal::zero(),
            dividends_per_share_quarterly: Decimal::zero(),
            dividend_payout_ratio: Decimal::zero(),
            dividends_per_share_growth: Decimal::zero(),
            continuous_dividend_payout: 0,
            continuous_dividend_growth: 0,
            gross_margin: Decimal::zero(),
            operating_margin: Decimal::zero(),
            profit_margin: Decimal::zero(),
            pure_margin: Decimal::zero(),
            free_cash_flow_margin: Decimal::zero(),
            roi: Decimal::zero(),
            roe: Decimal::zero(),
            roic: Decimal::zero(),
            rd_ratio: Decimal::zero(),
            sga_ratio: Decimal::zero(),
            total_revenue: 0,
            revenue_growth: Decimal::zero(),
            gross_profit: 0,
            operating_income: 0,
            net_income: 0,
            ebitda: 0,
            eps_diluted: Decimal::zero(),
            eps_diluted_growth: Decimal::zero(),
            total_assets: 0,
            total_current_assets: 0,
            cash_and_short_term: 0,
            total_liabilities: 0,
            total_debt: 0,
            net_debt: 0,
            total_equity: 0,
            current_ratio: Decimal::zero(),
            quick_ratio: Decimal::zero(),
            debt_to_equity: Decimal::zero(),
            cash_to_debt: Decimal::zero(),
            operating_cash_flow: 0,
            investing_cash_flow: 0,
            financing_cash_flow: 0,
            free_cash_flow: 0,
            capital_expenditures: 0,
            technical_rating: Rating::Unknown,
            ma_rating: Rating::Unknown,
            oscillators_rating: Rating::Unknown,
            rsi_14: Decimal::zero(),
            momentum_10: Decimal::zero(),
            awesome_oscillator: Decimal::zero(),
            cci_20: Decimal::zero(),
            stochastic_k: Decimal::zero(),
            stochastic_d: Decimal::zero(),
            candlestick_pattern: String::new(),
        }
    }
}

impl Clone for StockData {
    fn clone(&self) -> (r: StockData)
        ensures
            r@ == self@,
    {
        StockData {
            code: self.code.clone(),
            name: self.name.clone(),
            price: self.price,
            change_percent: self.change_percent,
            volume: self.volume,
            relative_volume: self.relative_volume,
            market_cap: self.market_cap,
            pe_ratio: self.pe_ratio,
            eps: self.eps,
            earnings_growth: self.earnings_growth,
            dividend_yield: self.dividend_yield,
            sector: self.sector.clone(),
            rating: self.rating,
            performance_1w: self.performance_1w,
            performance_1m: self.performance_1m,
            performance_3m: self.performance_3m,
            performance_6m: self.performance_6m,
            performance_ytd: self.performance_ytd,
            performance_1y: self.performance_1y,
            performance_5y: self.performance_5y,
            performance_10y: self.performance_10y,
            performance_all: self.performance_all,
            volatility_1w: self.volatility_1w,
            volatility_1m: self.volatility_1m,
            pre_market_close: self.pre_market_close,
            pre_market_change: self.pre_market_change,
            pre_market_gap: self.pre_market_gap,
            pre_market_volume: self.pre_market_volume,
            gap: self.gap,
            volume_change: self.volume_change,
            post_market_close: self.post_market_close,
            post_market_change: self.post_market_change,
            post_market_volume: self.post_market_volume,
            market_cap_perf_1y: self.market_cap_perf_1y,
            peg_ratio: self.peg_ratio,
            price_to_sales: self.price_to_sales,
            price_to_book: self.price_to_book,
            price_to_cash_flow: self.price_to_cash_flow,
            price_to_free_cash_flow: self.price_to_free_cash_flow,
            price_to_cash: self.price_to_cash,
            enterprise_value: self.enterprise_value,
            ev_to_revenue: self.ev_to_revenue,
            ev_to_ebit: self.ev_to_ebit,
            ev_to_ebitda: self.ev_to_ebitda,
            dividends_per_share_yearly: self.dividends_per_share_yearly,
            dividends_per_share_quarterly: self.dividends_per_share_quarterly,
            dividend_payout_ratio: self.dividend_payout_ratio,
            dividends_per_share_growth: self.dividends_per_share_growth,
            continuous_dividend_payout: self.continuous_dividend_payout,
            continuous_dividend_growth: self.continuous_dividend_growth,
            gross_margin: self.gross_margin,
            operating_margin: self.operating_margin,
            profit_margin: self.profit_margin,
            pure_margin: self.pure_margin,
            free_cash_flow_margin: self.free_cash_flow_margin,
            roi: self.roi,
            roe: self.roe,
            roic: self.roic,
            rd_ratio: self.rd_ratio,
            sga_ratio: self.sga_ratio,
            total_revenue: self.total_revenue,
            revenue_growth: self.revenue_growth,
            gross_profit: self.gross_profit,
            operating_income: self.operating_income,
            net_income: self.net_income,
            ebitda: self.ebitda,
            eps_diluted: self.eps_diluted,
            eps_diluted_growth: self.eps_diluted_growth,
            total_assets: self.total_assets,
            total_current_assets: self.total_current_assets,
            cash_and_short_term: self.cash_and_short_term,
            total_liabilities: self.total_liabilities,
            total_debt: self.total_debt,
            net_debt: self.net_debt,
            total_equity: self.total_equity,
            current_ratio: self.current_ratio,
            quick_ratio: self.quick_ratio,
            debt_to_equity: self.debt_to_equity,
            cash_to_debt: self.cash_to_debt,
            operating_cash_flow: self.operating_cash_flow,
            investing_cash_flow: self.investing_cash_flow,
            financing_cash_flow: self.financing_cash_flow,
            free_cash_flow: self.free_cash_flow,
            capital_expenditures: self.capital_expenditures,
            technical_rating: self.technical_rating,
            ma_rating: self.ma_rating,
            oscillators_rating: self.oscillators_rating,
            rsi_14: self.rsi_14,
            momentum_10: self.momentum_10,
            awesome_oscillator: self.awesome_oscillator,
            cci_20: self.cci_20,
            stochastic_k: self.stochastic_k,
            stochastic_d: self.stochastic_d,
            candlestick_pattern: self.candlestick_pattern.clone(),
        }
    }
}

} // verus!
