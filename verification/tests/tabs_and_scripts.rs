use stockdata::scraper::Script;
use stockdata::scripts::{
    get_data_extraction_script, get_page_loaded_check_script, get_row_count_script,
    get_scroll_script, get_tab_click_script, get_tab_loaded_check_script,
    update_search_input_script,
};
use stockdata::tabs::TabType;

#[test]
fn tabs_come_in_visiting_order() {
    let all = TabType::all();
    assert_eq!(all.len(), 10);
    assert_eq!(all[0], TabType::Overview);
    assert_eq!(all[9], TabType::Technicals);
    assert_eq!(TabType::first(), all[0]);
    for i in 0..all.len() {
        let next = if i + 1 < all.len() { Some(all[i + 1]) } else { None };
        assert_eq!(all[i].next(), next);
    }
}

#[test]
fn tabs_have_identifiers_and_names() {
    let ids: Vec<&str> = TabType::all().iter().map(|t| t.id()).collect();
    assert_eq!(
        ids,
        vec![
            "overview",
            "performance",
            "extendedHours",
            "valuation",
            "dividends",
            "profitability",
            "incomeStatement",
            "balanceSheet",
            "cashFlow",
            "technicals"
        ]
    );
    let names: Vec<&str> = TabType::all().iter().map(|t| t.name()).collect();
    assert_eq!(
        names,
        vec![
            "概览", "表现", "延长时段", "估值", "股利", "盈利能力", "损益表", "资产负债表",
            "现金流", "技术指标"
        ]
    );
}

#[test]
fn the_click_script_names_the_button() {
    let expected = "\n        var tab = document.querySelector('button[id=\"valuation\"]');\n        if (tab) {\n            tab.click();\n            return true;\n        }\n        return false;\n        ";
    assert_eq!(get_tab_click_script("valuation"), expected);
    assert_eq!(Script::ClickTab(TabType::Valuation).source(), expected);
}

#[test]
fn the_extraction_script_names_the_tab() {
    for tab in TabType::all() {
        let script = get_data_extraction_script(&tab);
        assert!(script.contains(&format!("const tabId = \"{}\";", tab.id())));
        assert!(script.contains("return JSON.stringify(result);"));
        assert!(script.contains("for (let i = 0; i < rows.length; i++) {"));
        assert!(!script.contains("{{"));
        assert!(!script.contains("}}"));
        assert_eq!(Script::ExtractRows(tab).source(), script);
    }
}

#[test]
fn the_fixed_scripts_are_what_the_page_needs() {
    assert_eq!(get_page_loaded_check_script(), "return document.readyState === 'complete';");
    assert_eq!(
        get_row_count_script(),
        "return document.querySelectorAll('tbody[tabindex=\"100\"] tr').length;"
    );
    assert_eq!(
        get_tab_loaded_check_script().trim(),
        "return document.querySelector('.overlay-gZJAyxim') === null;"
    );
    assert!(get_scroll_script().contains("containers[i].scrollTop = containers[i].scrollHeight;"));
    assert_eq!(Script::PageLoaded.source(), get_page_loaded_check_script());
    assert_eq!(Script::TabLoaded.source(), get_tab_loaded_check_script());
    assert_eq!(Script::ScrollToBottom.source(), get_scroll_script());
    assert_eq!(Script::RowCount.source(), get_row_count_script());
}

#[test]
fn the_search_script_types_the_code() {
    let script = update_search_input_script("SH600000");
    assert!(script.contains("simulateUserTyping(input, 'SH600000');"));
    assert!(script.contains("code: `Key${text[i].toUpperCase()}`"));
    assert!(script.contains("function sleep(ms) {"));
}
