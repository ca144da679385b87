use finance_calc::chart::{create_bar_chart, BarValue};
use finance_calc::scenario::{
    chart_colors, chart_labels, chart_title, minimal_chart, recommendation, scenario_chart,
    Scenario, NEVER_PAID_MONTHS,
};

const ALL: [Scenario; 9] = [
    Scenario::HourlyIncome,
    Scenario::TimeValue,
    Scenario::Investment,
    Scenario::Credit,
    Scenario::Retirement,
    Scenario::DebtPayoff,
    Scenario::EmergencyFund,
    Scenario::Tax,
    Scenario::BuyRent,
];

fn bar(height: i32, text: &str) -> BarValue {
    BarValue { height, text: text.to_string() }
}

#[test]
fn titles_of_every_scenario() {
    assert_eq!(chart_title(Scenario::HourlyIncome), "Порівняння ставок");
    assert_eq!(chart_title(Scenario::TimeValue), "Вартість часу");
    assert_eq!(chart_title(Scenario::Investment), "Структура капіталу");
    assert_eq!(chart_title(Scenario::Credit), "Структура виплат");
    assert_eq!(chart_title(Scenario::Retirement), "Пенсійне забезпечення");
    assert_eq!(chart_title(Scenario::DebtPayoff), "Структура боргу");
    assert_eq!(chart_title(Scenario::EmergencyFund), "Статус подушки");
    assert_eq!(chart_title(Scenario::Tax), "Структура доходу");
    assert_eq!(chart_title(Scenario::BuyRent), "Капітал через горизонт");
}

#[test]
fn labels_of_every_scenario() {
    assert_eq!(chart_labels(Scenario::HourlyIncome), vec!["Номінальна", "Реальна"]);
    assert_eq!(chart_labels(Scenario::TimeValue), vec!["Година", "День", "Тиждень", "Місяць"]);
    assert_eq!(chart_labels(Scenario::Investment), vec!["Внески", "Прибуток"]);
    assert_eq!(chart_labels(Scenario::Credit), vec!["Тіло", "Переплата"]);
    assert_eq!(chart_labels(Scenario::Retirement), vec!["Матимете", "Необхідно"]);
    assert_eq!(chart_labels(Scenario::DebtPayoff), vec!["Борг", "Відсотки"]);
    assert_eq!(chart_labels(Scenario::EmergencyFund), vec!["Наявне", "Ціль"]);
    assert_eq!(chart_labels(Scenario::Tax), vec!["Чистий", "Податок"]);
    assert_eq!(chart_labels(Scenario::BuyRent), vec!["Купівля", "Оренда"]);
}

#[test]
fn colors_of_every_scenario() {
    assert_eq!(chart_colors(Scenario::HourlyIncome), vec!["#95a5a6", "#2ecc71"]);
    assert_eq!(chart_colors(Scenario::TimeValue), vec!["#3498db"; 4]);
    assert_eq!(chart_colors(Scenario::Investment), vec!["#3498db", "#2ecc71"]);
    assert_eq!(chart_colors(Scenario::Credit), vec!["#3498db", "#e74c3c"]);
    assert_eq!(chart_colors(Scenario::Retirement), vec!["#2ecc71", "#e67e22"]);
    assert_eq!(chart_colors(Scenario::DebtPayoff), vec!["#3498db", "#e74c3c"]);
    assert_eq!(chart_colors(Scenario::EmergencyFund), vec!["#3498db", "#f1c40f"]);
    assert_eq!(chart_colors(Scenario::Tax), vec!["#2ecc71", "#e74c3c"]);
    assert_eq!(chart_colors(Scenario::BuyRent), vec!["#2ecc71", "#3498db"]);
}

#[test]
fn every_scenario_has_a_colour_for_each_category() {
    for scenario in ALL {
        let labels = chart_labels(scenario);
        assert_eq!(labels.len(), chart_colors(scenario).len());
        assert!(labels.len() >= 2 && labels.len() <= 4);
    }
}

#[test]
fn scenario_chart_is_the_chart_of_its_parts() {
    for scenario in ALL {
        let values = vec![bar(220, "9"), bar(10, "1"), bar(0, "0"), bar(-3, "-1")];
        let direct = create_bar_chart(
            chart_title(scenario),
            chart_labels(scenario),
            values.clone(),
            chart_colors(scenario),
        );
        assert_eq!(scenario_chart(scenario, values), direct);
    }
}

#[test]
fn tax_chart_for_a_fifth_of_a_thousand() {
    // Net 800 fills the strip of 220; tax 200 is a quarter of it.
    let svg = scenario_chart(Scenario::Tax, vec![bar(220, "800"), bar(55, "200")]);
    assert!(svg.contains(">Структура доходу</text>"));
    assert!(svg.contains("<rect x=\"45\" y=\"40\" width=\"150\" height=\"220\" fill=\"#2ecc71\" rx=\"4\" />"));
    assert!(svg.contains("<rect x=\"205\" y=\"205\" width=\"150\" height=\"55\" fill=\"#e74c3c\" rx=\"4\" />"));
    assert!(svg.contains(">Чистий</text>"));
    assert!(svg.contains(">Податок</text>"));
    assert!(svg.contains(">800</text>"));
    assert!(svg.contains(">200</text>"));
}

#[test]
fn time_value_chart_has_four_bars() {
    let svg = scenario_chart(
        Scenario::TimeValue,
        vec![bar(1, "10"), bar(11, "80"), bar(55, "400"), bar(220, "1600")],
    );
    assert_eq!(svg.matches("<rect x=").count(), 4);
    assert_eq!(svg.matches("fill=\"#3498db\"").count(), 4);
    assert!(svg.contains("<rect x=\"285\" y=\"40\" width=\"70\" height=\"220\""));
}

#[test]
fn debt_that_never_shrinks_has_fixed_answers() {
    assert_eq!(NEVER_PAID_MONTHS, 999);
    assert_eq!(minimal_chart(), "<svg></svg>");
}

#[test]
fn recommendation_words() {
    assert_eq!(recommendation(true), "buy");
    assert_eq!(recommendation(false), "rent");
}

#[test]
fn presentation_is_repeatable() {
    for scenario in ALL {
        let first = scenario_chart(scenario, vec![bar(7, "7"), bar(9, "9")]);
        let second = scenario_chart(scenario, vec![bar(7, "7"), bar(9, "9")]);
        assert_eq!(first, second);
    }
}
