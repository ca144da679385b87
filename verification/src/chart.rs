//! Bar charts as vector markup on a fixed canvas.
//!
//! The canvas is 400 wide and 300 high with a margin of 40 on every side, so
//! bars share a strip 320 wide and stand on the line `y = 260`. A bar's
//! height arrives in pixels, together with the text printed above it; how a
//! quantity becomes pixels and text is the caller's business.

use vstd::prelude::*;
use vstd::string::StringExecFns;
use crate::decimal::{decimal, lemma_decimal_examples, push_decimal};

verus! {

/// One value of a series as the canvas shows it.
#[derive(Clone, Debug)]
pub struct BarValue {
    /// Height of the bar in pixels.
    pub height: i32,
    /// Text printed above the bar.
    pub text: String,
}

/// The mathematical content of a [`BarValue`].
pub struct BarValueView {
    pub height: int,
    pub text: Seq<char>,
}

impl View for BarValue {
    type V = BarValueView;

    open spec fn view(&self) -> BarValueView {
        BarValueView { height: self.height as int, text: self.text@ }
    }
}

/// The texts of a sequence of string slices.
pub open spec fn texts(items: Seq<&str>) -> Seq<Seq<char>> {
    Seq::new(items.len(), |i: int| items[i]@)
}

/// The contents of a sequence of bar values.
pub open spec fn bar_views(items: Seq<BarValue>) -> Seq<BarValueView> {
    Seq::new(items.len(), |i: int| items[i]@)
}

/// Width of each bar when the strip is shared by `count` categories: an equal
/// share of the strip, less a gap of 10.
pub open spec fn bar_width(count: int) -> int
    recommends
        count > 0,
{
    320int / count - 10
}

/// Left edge of the bar at `index`: bars follow each other from the left
/// margin, each share starting with half a gap.
pub open spec fn bar_left(index: int, count: int) -> int
    recommends
        count > 0,
{
    45 + index * (bar_width(count) + 10)
}

/// Top edge of a bar of the given height standing on the floor of the canvas.
pub open spec fn bar_top(height: int) -> int {
    260 - height
}

/// Half of a width, rounded toward zero.
pub open spec fn half(width: int) -> int {
    if width >= 0 {
        width / 2
    } else {
        -((-width) / 2)
    }
}

/// The colour of the bar at `index`: the one listed for it, or blue where the
/// list is too short.
pub open spec fn bar_color(colors: Seq<Seq<char>>, index: int) -> Seq<char> {
    if 0 <= index < colors.len() {
        colors[index]
    } else {
        "#3498db"@
    }
}

/// The opening tag of the document and its white background.
pub open spec fn chart_open() -> Seq<char> {
    "<svg width=\"400\" height=\"300\" viewBox=\"0 0 400 300\" xmlns=\"http://www.w3.org/2000/svg\">"@
        + "<rect width=\"100%\" height=\"100%\" fill=\"white\" />"@
}

/// The title, centred at the top of the canvas.
pub open spec fn title_markup(title: Seq<char>) -> Seq<char> {
    "<text x=\"200\" y=\"25\" font-family=\"sans-serif\" font-size=\"16\" font-weight=\"bold\" text-anchor=\"middle\">"@
        + title + "</text>"@
}

/// A bar: a rectangle with rounded corners.
pub open spec fn rect_markup(left: int, top: int, width: int, height: int, color: Seq<char>) -> Seq<
    char,
> {
    "<rect x=\""@ + decimal(left) + "\" y=\""@ + decimal(top) + "\" width=\""@ + decimal(width)
        + "\" height=\""@ + decimal(height) + "\" fill=\""@ + color + "\" rx=\"4\" />"@
}

/// The category label, centred below a bar.
pub open spec fn label_markup(center: int, label: Seq<char>) -> Seq<char> {
    "<text x=\""@ + decimal(center)
        + "\" y=\"275\" font-family=\"sans-serif\" font-size=\"10\" text-anchor=\"middle\">"@
        + label + "</text>"@
}

/// The value label, centred above a bar whose top edge is `top`.
pub open spec fn value_markup(center: int, top: int, text: Seq<char>) -> Seq<char> {
    "<text x=\""@ + decimal(center) + "\" y=\""@ + decimal(top - 5)
        + "\" font-family=\"sans-serif\" font-size=\"10\" font-weight=\"bold\" text-anchor=\"middle\">"@
        + text + "</text>"@
}

/// Everything drawn for the category at `index` of `count`: the bar, the
/// label below it and the value above it.
pub open spec fn bar_markup(
    index: int,
    count: int,
    label: Seq<char>,
    value: BarValueView,
    color: Seq<char>,
) -> Seq<char>
    recommends
        0 <= index < count,
{
    let left = bar_left(index, count);
    let width = bar_width(count);
    let top = bar_top(value.height);
    let center = left + half(width);
    rect_markup(left, top, width, value.height, color) + label_markup(center, label)
        + value_markup(center, top, value.text)
}

/// The first `n` categories, from left to right.
pub open spec fn bars_markup(
    labels: Seq<Seq<char>>,
    values: Seq<BarValueView>,
    colors: Seq<Seq<char>>,
    n: nat,
) -> Seq<char>
    recommends
        n <= labels.len(),
        n <= values.len(),
    decreases n,
{
    if n == 0 {
        Seq::empty()
    } else {
        bars_markup(labels, values, colors, (n - 1) as nat) + bar_markup(
            n - 1,
            labels.len() as int,
            labels[n - 1],
            values[n - 1],
            bar_color(colors, n - 1),
        )
    }
}

/// How many categories are drawn: those that have both a label and a value.
pub open spec fn bar_count(labels: Seq<Seq<char>>, values: Seq<BarValueView>) -> nat {
    if values.len() < labels.len() {
        values.len()
    } else {
        labels.len()
    }
}

/// The whole document: opening, title, the bars in the order of their labels,
/// closing tag. An empty series gives a chart without bars.
pub open spec fn chart_markup(
    title: Seq<char>,
    labels: Seq<Seq<char>>,
    values: Seq<BarValueView>,
    colors: Seq<Seq<char>>,
) -> Seq<char> {
    chart_open() + title_markup(title) + bars_markup(
        labels,
        values,
        colors,
        bar_count(labels, values),
    ) + "</svg>"@
}

fn title_element(title: &str) -> (element: String)
    ensures
        element@ == title_markup(title@),
{
    let mut element = String::from_str(
        "<text x=\"200\" y=\"25\" font-family=\"sans-serif\" font-size=\"16\" font-weight=\"bold\" text-anchor=\"middle\">",
    );
    element.append(title);
    element.append("</text>");
    element
}

fn rect_element(left: i64, top: i64, width: i64, height: i64, color: &str) -> (element: String)
    ensures
        element@ == rect_markup(left as int, top as int, width as int, height as int, color@),
{
    let mut element = String::from_str("<rect x=\"");
    push_decimal(&mut element, left);
    element.append("\" y=\"");
    push_decimal(&mut element, top);
    element.append("\" width=\"");
    push_decimal(&mut element, width);
    element.append("\" height=\"");
    push_decimal(&mut element, height);
    element.append("\" fill=\"");
    element.append(color);
    element.append("\" rx=\"4\" />");
    element
}

fn label_element(center: i64, label: &str) -> (element: String)
    ensures
        element@ == label_markup(center as int, label@),
{
    let mut element = String::from_str("<text x=\"");
    push_decimal(&mut element, center);
    element.append(
        "\" y=\"275\" font-family=\"sans-serif\" font-size=\"10\" text-anchor=\"middle\">",
    );
    element.append(label);
    element.append("</text>");
    element
}

fn value_element(center: i64, top: i64, text: &str) -> (element: String)
    requires
        i64::MIN + 5 <= top,
    ensures
        element@ == value_markup(center as int, top as int, text@),
{
    let mut element = String::from_str("<text x=\"");
    push_decimal(&mut element, center);
    element.append("\" y=\"");
    push_decimal(&mut element, top - 5);
    element.append(
        "\" font-family=\"sans-serif\" font-size=\"10\" font-weight=\"bold\" text-anchor=\"middle\">",
    );
    element.append(text);
    element.append("</text>");
    element
}

/// The markup of the category at `index` of `count`.
fn bar_element(index: usize, count: usize, label: &str, value: &BarValue, color: &str) -> (element:
    String)
    requires
        index < count,
    ensures
        element@ == bar_markup(index as int, count as int, label@, value@, color@),
{
    let share: usize = 320 / count;
    assert(index * share <= 320) by (nonlinear_arith)
        requires
            index < count,
            share == 320int / (count as int),
            count > 0,
    ;
    let offset: usize = index * share;
    let width: i64 = share as i64 - 10;
    let left: i64 = 45 + offset as i64;
    let top: i64 = 260 - value.height as i64;
    let half_width: i64 = if width >= 0 {
        width / 2
    } else {
        -((-width) / 2)
    };
    let center: i64 = left + half_width;
    assert(left == bar_left(index as int, count as int)) by (nonlinear_arith)
        requires
            left == 45 + index * share,
            share == 320int / (count as int),
    ;
    let mut element = rect_element(left, top, width, value.height as i64, color);
    element.append(label_element(center, label).as_str());
    element.append(value_element(center, top, value.text.as_str()).as_str());
    element
}

/// Renders a series as a bar chart.
///
/// Bars stand in the order of `labels`; a category is drawn where it has both
/// a label and a value. The bar at position `i` takes `colors[i]`, or blue
/// where `colors` is shorter. A series without labels or without values gives
/// the frame and the title alone.
pub fn create_bar_chart(
    title: &str,
    labels: Vec<&str>,
    values: Vec<BarValue>,
    colors: Vec<&str>,
) -> (svg: String)
    ensures
        svg@ == chart_markup(title@, texts(labels@), bar_views(values@), texts(colors@)),
{
    let count: usize = labels.len();
    let shown: usize = if values.len() < count {
        values.len()
    } else {
        count
    };
    let mut svg = String::from_str(
        "<svg width=\"400\" height=\"300\" viewBox=\"0 0 400 300\" xmlns=\"http://www.w3.org/2000/svg\">",
    );
    svg.append("<rect width=\"100%\" height=\"100%\" fill=\"white\" />");
    svg.append(title_element(title).as_str());
    let ghost head = svg@;
    let ghost label_texts = texts(labels@);
    let ghost value_views = bar_views(values@);
    let ghost color_texts = texts(colors@);
    assert(head + bars_markup(label_texts, value_views, color_texts, 0) =~= head);
    let mut i: usize = 0;
    while i < shown
        invariant
            i <= shown,
            shown <= labels.len(),
            shown <= values.len(),
            count == labels.len(),
            label_texts == texts(labels@),
            value_views == bar_views(values@),
            color_texts == texts(colors@),
            head == chart_open() + title_markup(title@),
            svg@ == head + bars_markup(label_texts, value_views, color_texts, i as nat),
        decreases shown - i,
    {
        let color: &str = if i < colors.len() {
            colors[i]
        } else {
            "#3498db"
        };
        let bar = bar_element(i, count, labels[i], &values[i], color);
        let ghost drawn = bars_markup(label_texts, value_views, color_texts, i as nat);
        svg.append(bar.as_str());
        assert(head + drawn + bar@ =~= head + (drawn + bar@));
        i += 1;
    }
    svg.append("</svg>");
    svg
}

/// Neighbouring bars are 10 apart: each bar starts where the one before it
/// ends, plus the gap.
pub proof fn lemma_gap_between_bars(index: int, count: int)
    requires
        0 <= index,
        index + 1 < count,
    ensures
        bar_left(index + 1, count) == bar_left(index, count) + bar_width(count) + 10,
{
    let share = bar_width(count) + 10;
    assert((index + 1) * share == index * share + share) by (nonlinear_arith);
}

/// Every bar starts right of the left margin, and where the bars have a
/// width at all, every bar ends left of the right margin.
pub proof fn lemma_bars_inside_strip(index: int, count: int)
    requires
        0 <= index < count,
    ensures
        40 < bar_left(index, count),
        bar_width(count) >= 0 ==> bar_left(index, count) + bar_width(count) < 360,
{
    let share = 320int / count;
    assert(share == bar_width(count) + 10);
    assert(0 <= index * share && (index + 1) * share <= 320) by (nonlinear_arith)
        requires
            0 <= index < count,
            share == 320int / count,
    ;
    assert((index + 1) * share == index * share + share) by (nonlinear_arith);
}

/// A series of one category is drawn as exactly one bar between the title and
/// the closing tag; the bar starts at 45 and is 310 wide.
pub proof fn lemma_single_bar_chart(
    title: Seq<char>,
    label: Seq<char>,
    value: BarValueView,
    colors: Seq<Seq<char>>,
)
    ensures
        chart_markup(title, seq![label], seq![value], colors) == chart_open() + title_markup(title)
            + bar_markup(0, 1, label, value, bar_color(colors, 0)) + "</svg>"@,
        bar_left(0, 1) == 45,
        bar_width(1) == 310,
{
    reveal_with_fuel(bars_markup, 2);
    let labels = seq![label];
    let values = seq![value];
    assert(bar_count(labels, values) == 1);
    assert(bars_markup(labels, values, colors, 1) =~= bar_markup(
        0,
        1,
        label,
        value,
        bar_color(colors, 0),
    ));
}

/// A series without labels, or without values, is drawn as the frame and the
/// title alone.
pub proof fn lemma_empty_series_chart(
    title: Seq<char>,
    labels: Seq<Seq<char>>,
    values: Seq<BarValueView>,
    colors: Seq<Seq<char>>,
)
    requires
        labels.len() == 0 || values.len() == 0,
    ensures
        chart_markup(title, labels, values, colors) == chart_open() + title_markup(title)
            + "</svg>"@,
{
    assert(chart_open() + title_markup(title) + Seq::<char>::empty() =~= chart_open()
        + title_markup(title));
}

/// A bar of height zero is a rectangle of height `0` whose top edge lies on
/// the floor of the canvas, at `260`.
pub proof fn lemma_flat_bar(left: int, width: int, color: Seq<char>)
    ensures
        rect_markup(left, bar_top(0), width, 0, color) == "<rect x=\""@ + decimal(left)
            + "\" y=\""@ + "260"@ + "\" width=\""@ + decimal(width) + "\" height=\""@ + "0"@
            + "\" fill=\""@ + color + "\" rx=\"4\" />"@,
{
    lemma_decimal_examples();
}

/// In a series whose heights are all zero, every bar that is drawn has the
/// rectangle of a flat bar.
pub proof fn lemma_flat_series(
    labels: Seq<Seq<char>>,
    values: Seq<BarValueView>,
    colors: Seq<Seq<char>>,
    index: int,
)
    requires
        0 <= index < bar_count(labels, values),
        forall|i: int| 0 <= i < values.len() ==> (#[trigger] values[i]).height == 0,
    ensures
        bar_markup(
            index,
            labels.len() as int,
            labels[index],
            values[index],
            bar_color(colors, index),
        ) == rect_markup(
            bar_left(index, labels.len() as int),
            260,
            bar_width(labels.len() as int),
            0,
            bar_color(colors, index),
        ) + label_markup(
            bar_left(index, labels.len() as int) + half(bar_width(labels.len() as int)),
            labels[index],
        ) + value_markup(
            bar_left(index, labels.len() as int) + half(bar_width(labels.len() as int)),
            260,
            values[index].text,
        ),
{
}

/// The markup is a function of the texts alone: two calls on arguments that
/// hold the same texts and the same bar values give the same document.
pub proof fn lemma_same_input_same_chart(
    title: Seq<char>,
    labels: Seq<&str>,
    values: Seq<BarValue>,
    colors: Seq<&str>,
    other_labels: Seq<&str>,
    other_values: Seq<BarValue>,
    other_colors: Seq<&str>,
)
    requires
        texts(labels) == texts(other_labels),
        bar_views(values) == bar_views(other_values),
        texts(colors) == texts(other_colors),
    ensures
        chart_markup(title, texts(labels), bar_views(values), texts(colors)) == chart_markup(
            title,
            texts(other_labels),
            bar_views(other_values),
            texts(other_colors),
        ),
{
}

} // verus!
