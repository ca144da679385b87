//! The nine calculations and how each presents its result: the chart's
//! title, its categories and their colours, and the fixed answers of the
//! degenerate cases.

use vstd::prelude::*;
use vstd::string::StringExecFns;
use crate::chart::{bar_views, chart_markup, create_bar_chart, texts, BarValue};

verus! {

/// A calculation that the library knows how to present.
#[derive(Clone, Copy, Debug, PartialEq, Eq)]
pub enum Scenario {
    HourlyIncome,
    TimeValue,
    Investment,
    Credit,
    Retirement,
    DebtPayoff,
    EmergencyFund,
    Tax,
    BuyRent,
}

/// The number of months reported for a debt that the payments never reduce.
pub const NEVER_PAID_MONTHS: u32 = 999;

/// The title above a scenario's chart.
pub open spec fn scenario_title(scenario: Scenario) -> Seq<char> {
    match scenario {
        Scenario::HourlyIncome => "Порівняння ставок"@,
        Scenario::TimeValue => "Вартість часу"@,
        Scenario::Investment => "Структура капіталу"@,
        Scenario::Credit => "Структура виплат"@,
        Scenario::Retirement => "Пенсійне забезпечення"@,
        Scenario::DebtPayoff => "Структура боргу"@,
        Scenario::EmergencyFund => "Статус подушки"@,
        Scenario::Tax => "Структура доходу"@,
        Scenario::BuyRent => "Капітал через горизонт"@,
    }
}

/// The categories of a scenario's chart, from left to right.
pub open spec fn scenario_labels(scenario: Scenario) -> Seq<Seq<char>> {
    match scenario {
        Scenario::HourlyIncome => seq!["Номінальна"@, "Реальна"@],
        Scenario::TimeValue => seq!["Година"@, "День"@, "Тиждень"@, "Місяць"@],
        Scenario::Investment => seq!["Внески"@, "Прибуток"@],
        Scenario::Credit => seq!["Тіло"@, "Переплата"@],
        Scenario::Retirement => seq!["Матимете"@, "Необхідно"@],
        Scenario::DebtPayoff => seq!["Борг"@, "Відсотки"@],
        Scenario::EmergencyFund => seq!["Наявне"@, "Ціль"@],
        Scenario::Tax => seq!["Чистий"@, "Податок"@],
        Scenario::BuyRent => seq!["Купівля"@, "Оренда"@],
    }
}

/// The colours of a scenario's bars, one for each category.
pub open spec fn scenario_colors(scenario: Scenario) -> Seq<Seq<char>> {
    match scenario {
        Scenario::HourlyIncome => seq!["#95a5a6"@, "#2ecc71"@],
        Scenario::TimeValue => seq!["#3498db"@, "#3498db"@, "#3498db"@, "#3498db"@],
        Scenario::Investment => seq!["#3498db"@, "#2ecc71"@],
        Scenario::Credit => seq!["#3498db"@, "#e74c3c"@],
        Scenario::Retirement => seq!["#2ecc71"@, "#e67e22"@],
        Scenario::DebtPayoff => seq!["#3498db"@, "#e74c3c"@],
        Scenario::EmergencyFund => seq!["#3498db"@, "#f1c40f"@],
        Scenario::Tax => seq!["#2ecc71"@, "#e74c3c"@],
        Scenario::BuyRent => seq!["#2ecc71"@, "#3498db"@],
    }
}

/// The title above a scenario's chart.
pub fn chart_title(scenario: Scenario) -> (title: &'static str)
    ensures
        title@ == scenario_title(scenario),
{
    match scenario {
        Scenario::HourlyIncome => "Порівняння ставок",
        Scenario::TimeValue => "Вартість часу",
        Scenario::Investment => "Структура капіталу",
        Scenario::Credit => "Структура виплат",
        Scenario::Retirement => "Пенсійне забезпечення",
        Scenario::DebtPayoff => "Структура боргу",
        Scenario::EmergencyFund => "Статус подушки",
        Scenario::Tax => "Структура доходу",
        Scenario::BuyRent => "Капітал через горизонт",
    }
}

/// The categories of a scenario's chart, from left to right.
pub fn chart_labels(scenario: Scenario) -> (labels: Vec<&'static str>)
    ensures
        texts(labels@) == scenario_labels(scenario),
{
    let labels = match scenario {
        Scenario::HourlyIncome => vec!["Номінальна", "Реальна"],
        Scenario::TimeValue => vec!["Година", "День", "Тиждень", "Місяць"],
        Scenario::Investment => vec!["Внески", "Прибуток"],
        Scenario::Credit => vec!["Тіло", "Переплата"],
        Scenario::Retirement => vec!["Матимете", "Необхідно"],
        Scenario::DebtPayoff => vec!["Борг", "Відсотки"],
        Scenario::EmergencyFund => vec!["Наявне", "Ціль"],
        Scenario::Tax => vec!["Чистий", "Податок"],
        Scenario::BuyRent => vec!["Купівля", "Оренда"],
    };
    assert(texts(labels@) =~= scenario_labels(scenario));
    labels
}

/// The colours of a scenario's bars, one for each category.
pub fn chart_colors(scenario: Scenario) -> (colors: Vec<&'static str>)
    ensures
        texts(colors@) == scenario_colors(scenario),
{
    let colors = match scenario {
        Scenario::HourlyIncome => vec!["#95a5a6", "#2ecc71"],
        Scenario::TimeValue => vec!["#3498db", "#3498db", "#3498db", "#3498db"],
        Scenario::Investment => vec!["#3498db", "#2ecc71"],
        Scenario::Credit => vec!["#3498db", "#e74c3c"],
        Scenario::Retirement => vec!["#2ecc71", "#e67e22"],
        Scenario::DebtPayoff => vec!["#3498db", "#e74c3c"],
        Scenario::EmergencyFund => vec!["#3498db", "#f1c40f"],
        Scenario::Tax => vec!["#2ecc71", "#e74c3c"],
        Scenario::BuyRent => vec!["#2ecc71", "#3498db"],
    };
    assert(texts(colors@) =~= scenario_colors(scenario));
    colors
}

/// Renders the chart of a scenario from the values of its categories, given
/// from left to right.
pub fn scenario_chart(scenario: Scenario, values: Vec<BarValue>) -> (svg: String)
    ensures
        svg@ == chart_markup(
            scenario_title(scenario),
            scenario_labels(scenario),
            bar_views(values@),
            scenario_colors(scenario),
        ),
{
    create_bar_chart(chart_title(scenario), chart_labels(scenario), values, chart_colors(scenario))
}

/// The chart reported for a debt that the payments never reduce: a document
/// with nothing in it.
pub fn minimal_chart() -> (svg: String)
    ensures
        svg@ == "<svg></svg>"@,
{
    String::from_str("<svg></svg>")
}

/// The word for the outcome of comparing buying with renting.
pub open spec fn recommendation_text(buying_ahead: bool) -> Seq<char> {
    if buying_ahead {
        "buy"@
    } else {
        "rent"@
    }
}

/// The recommendation between buying and renting: buying only where it
/// leaves strictly more than renting does.
pub fn recommendation(buying_ahead: bool) -> (word: String)
    ensures
        word@ == recommendation_text(buying_ahead),
{
    if buying_ahead {
        String::from_str("buy")
    } else {
        String::from_str("rent")
    }
}

/// Every scenario has as many colours as categories, and between two and
/// four of them.
pub proof fn lemma_scenario_series(scenario: Scenario)
    ensures
        scenario_labels(scenario).len() == scenario_colors(scenario).len(),
        2 <= scenario_labels(scenario).len() <= 4,
{
}

} // verus!
