//! The views of the screener table, one per tab of the page.

use vstd::prelude::*;

verus! {

/// A tab of the screener: a named subset of columns for the same securities.
#[derive(Debug, Clone, Copy, PartialEq, Eq, Structural, Hash)]
pub enum TabType {
    Overview,
    Performance,
    ExtendedHours,
    Valuation,
    Dividends,
    Profitability,
    IncomeStatement,
    BalanceSheet,
    CashFlow,
    Technicals,
}

impl TabType {
    /// The identifier of the tab's button on the page.
    pub open spec fn id_text(self) -> Seq<char> {
        match self {
            TabType::Overview => "overview"@,
            TabType::Performance => "performance"@,
            TabType::ExtendedHours => "extendedHours"@,
            TabType::Valuation => "valuation"@,
            TabType::Dividends => "dividends"@,
            TabType::Profitability => "profitability"@,
            TabType::IncomeStatement => "incomeStatement"@,
            TabType::BalanceSheet => "balanceSheet"@,
            TabType::CashFlow => "cashFlow"@,
            TabType::Technicals => "technicals"@,
        }
    }

    /// The tab's name as the page shows it.
    pub open spec fn name_text(self) -> Seq<char> {
        match self {
            TabType::Overview => "概览"@,
            TabType::Performance => "表现"@,
            TabType::ExtendedHours => "延长时段"@,
            TabType::Valuation => "估值"@,
            TabType::Dividends => "股利"@,
            TabType::Profitability => "盈利能力"@,
            TabType::IncomeStatement => "损益表"@,
            TabType::BalanceSheet => "资产负债表"@,
            TabType::CashFlow => "现金流"@,
            TabType::Technicals => "技术指标"@,
        }
    }

    /// The tabs in the order in which a fetch visits them.
    pub open spec fn order() -> Seq<TabType> {
        seq![
            TabType::Overview,
            TabType::Performance,
            TabType::ExtendedHours,
            TabType::Valuation,
            TabType::Dividends,
            TabType::Profitability,
            TabType::IncomeStatement,
            TabType::BalanceSheet,
            TabType::CashFlow,
            TabType::Technicals,
        ]
    }

    /// The position of the tab in the visiting order.
    pub open spec fn position(self) -> int {
        match self {
            TabType::Overview => 0,
            TabType::Performance => 1,
            TabType::ExtendedHours => 2,
            TabType::Valuation => 3,
            TabType::Dividends => 4,
            TabType::Profitability => 5,
            TabType::IncomeStatement => 6,
            TabType::BalanceSheet => 7,
            TabType::CashFlow => 8,
            TabType::Technicals => 9,
        }
    }

    /// The tab that a fetch visits after this one, if any.
    pub open spec fn successor(self) -> Option<TabType> {
        if self.position() + 1 < TabType::order().len() {
            Some(TabType::order()[self.position() + 1])
        } else {
            None
        }
    }

    /// The tab that a fetch visits first.
    pub fn first() -> (r: TabType)
        ensures
            r == TabType::order()[0],
    {
        TabType::Overview
    }

    /// The tab that a fetch visits after this one, if any.
    pub fn next(&self) -> (r: Option<TabType>)
        ensures
            r == self.successor(),
    {
        match self {
            TabType::Overview => Some(TabType::Performance),
            TabType::Performance => Some(TabType::ExtendedHours),
            TabType::ExtendedHours => Some(TabType::Valuation),
            TabType::Valuation => Some(TabType::Dividends),
            TabType::Dividends => Some(TabType::Profitability),
            TabType::Profitability => Some(TabType::IncomeStatement),
            TabType::IncomeStatement => Some(TabType::BalanceSheet),
            TabType::BalanceSheet => Some(TabType::CashFlow),
            TabType::CashFlow => Some(TabType::Technicals),
            TabType::Technicals => None,
        }
    }

    /// The identifier of the tab's button on the page.
    pub fn id(&self) -> (r: &'static str)
        ensures
            r@ == self.id_text(),
    {
        match self {
            TabType::Overview => "overview",
            TabType::Performance => "performance",
            TabType::ExtendedHours => "extendedHours",
            TabType::Valuation => "valuation",
            TabType::Dividends => "dividends",
            TabType::Profitability => "profitability",
            TabType::IncomeStatement => "incomeStatement",
            TabType::BalanceSheet => "balanceSheet",
            TabType::CashFlow => "cashFlow",
            TabType::Technicals => "technicals",
        }
    }

    /// The tab's name as the page shows it.
    pub fn name(&self) -> (r: &'static str)
        ensures
            r@ == self.name_text(),
    {
        match self {
            TabType::Overview => "概览",
            TabType::Performance => "表现",
            TabType::ExtendedHours => "延长时段",
            TabType::Valuation => "估值",
            TabType::Dividends => "股利",
            TabType::Profitability => "盈利能力",
            TabType::IncomeStatement => "损益表",
            TabType::BalanceSheet => "资产负债表",
            TabType::CashFlow => "现金流",
            TabType::Technicals => "技术指标",
        }
    }

    /// All tabs, in the order in which a fetch visits them.
    pub fn all() -> (r: Vec<TabType>)
        ensures
            r@ == TabType::order(),
    {
        let mut tabs: Vec<TabType> = Vec::new();
        tabs.push(TabType::Overview);
        tabs.push(TabType::Performance);
        tabs.push(TabType::ExtendedHours);
        tabs.push(TabType::Valuation);
        tabs.push(TabType::Dividends);
        tabs.push(TabType::Profitability);
        tabs.push(TabType::IncomeStatement);
        tabs.push(TabType::BalanceSheet);
        tabs.push(TabType::CashFlow);
        tabs.push(TabType::Technicals);
        assert(tabs@ =~= TabType::order());
        tabs
    }
}

/// Every tab stands at its position in the visiting order.
pub proof fn lemma_position_in_order(tab: TabType)
    ensures
        0 <= tab.position() < TabType::order().len(),
        TabType::order()[tab.position()] == tab,
{
}

} // verus!
