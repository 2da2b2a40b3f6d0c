use rustberry_poe_monitor::config::{
    ComponentConfig, ElementConfig, PositionConfig, PositionValue, PrefixSuffixConfig, ValueConfig,
};
use rustberry_poe_monitor::font::FontStyle;
use rustberry_poe_monitor::layout::{layout, resolve_x, resolve_y, DrawOp};
use rustberry_poe_monitor::telemetry::Telemetry;

fn snapshot() -> Telemetry {
    Telemetry {
        interface_phys: "eth".to_string(),
        interface_numvlan: "0.99".to_string(),
        ip_address: "192.168.0.17".to_string(),
        ip_octets: [192, 168, 0, 17],
        cpu_usage: "42.0".to_string(),
        cpu_temp: "51.3".to_string(),
        ram_usage: "12.5".to_string(),
        disk_usage: "80.1".to_string(),
    }
}

fn run(text: &str, font: &str) -> Option<PrefixSuffixConfig> {
    Some(PrefixSuffixConfig { text: text.to_string(), font: font.to_string() })
}

fn component(
    prefix: Option<PrefixSuffixConfig>,
    text: &str,
    font: &str,
    suffix: Option<PrefixSuffixConfig>,
) -> ComponentConfig {
    ComponentConfig { value: ValueConfig { text: text.to_string(), font: font.to_string() }, prefix, suffix }
}

fn element(x: PositionValue, y: PositionValue, components: Vec<ComponentConfig>) -> ElementConfig {
    ElementConfig { id: "e".to_string(), position: PositionConfig { x, y }, components }
}

fn keyword(k: &str) -> PositionValue {
    PositionValue::Text(k.to_string())
}

fn relative(align: &str, anchor: i32) -> PositionValue {
    PositionValue::Relative { align: align.to_string(), anchor }
}

fn op(text: &str, font: FontStyle, x: i32, y: i32) -> DrawOp {
    DrawOp { text: text.to_string(), font, x, y }
}

#[test]
fn centered_value_on_the_landscape_canvas() {
    let e = element(
        keyword("center"),
        PositionValue::Number(8),
        vec![component(None, "cpu_usage", "FONT_5X8", None)],
    );
    assert_eq!(layout(&e, &snapshot(), 128), Some(vec![op("42.0", FontStyle::Font5x8, 54, 8)]));
}

#[test]
fn unknown_font_draws_in_the_default_font() {
    let e = element(
        keyword("left"),
        PositionValue::Number(0),
        vec![component(None, "cpu_usage", "BOGUS", None)],
    );
    assert_eq!(layout(&e, &snapshot(), 128), Some(vec![op("42.0", FontStyle::Font5x8, 0, 0)]));
    let wide = element(
        keyword("right"),
        PositionValue::Number(0),
        vec![component(None, "cpu_usage", "BOGUS", None)],
    );
    assert_eq!(layout(&wide, &snapshot(), 128), Some(vec![op("42.0", FontStyle::Font5x8, 108, 0)]));
}

#[test]
fn suffix_follows_the_value_without_a_gap() {
    let e = element(
        PositionValue::Number(10),
        PositionValue::Number(4),
        vec![component(None, "cpu_temp", "FONT_6X12", run("C", "FONT_5X8"))],
    );
    assert_eq!(
        layout(&e, &snapshot(), 128),
        Some(vec![op("51.3", FontStyle::Font6x12, 10, 4), op("C", FontStyle::Font5x8, 34, 4)])
    );
    let right = element(
        keyword("right"),
        PositionValue::Number(4),
        vec![component(None, "cpu_temp", "FONT_6X12", run("C", "FONT_5X8"))],
    );
    assert_eq!(
        layout(&right, &snapshot(), 128),
        Some(vec![op("51.3", FontStyle::Font6x12, 99, 4), op("C", FontStyle::Font5x8, 123, 4)])
    );
}

#[test]
fn prefix_value_suffix_in_that_order() {
    let e = element(
        PositionValue::Number(0),
        PositionValue::Number(16),
        vec![component(run("CPU ", "PROFONT9"), "cpu_usage", "PROFONT12", run("%", "PCSENIOR8_STYLE"))],
    );
    assert_eq!(
        layout(&e, &snapshot(), 128),
        Some(vec![
            op("CPU ", FontStyle::ProFont9, 0, 16),
            op("42.0", FontStyle::ProFont12, 24, 16),
            op("%", FontStyle::PcSenior8, 56, 16),
        ])
    );
}

#[test]
fn components_advance_the_cursor() {
    let e = element(
        keyword("center"),
        PositionValue::Number(2),
        vec![
            component(None, "ip_octets(0)", "FONT_5X8", run(".", "FONT_5X8")),
            component(None, "ip_octets(1)", "FONT_5X8", run(".", "FONT_5X8")),
            component(None, "ip_octets(2)", "FONT_5X8", run(".", "FONT_5X8")),
            component(None, "ip_octets(3)", "FONT_6X12", None),
        ],
    );
    // 3*5+5 + 3*5+5 + 1*5+5 + 2*6 = 62, centered on 128 at 33
    assert_eq!(
        layout(&e, &snapshot(), 128),
        Some(vec![
            op("192", FontStyle::Font5x8, 33, 2),
            op(".", FontStyle::Font5x8, 48, 2),
            op("168", FontStyle::Font5x8, 53, 2),
            op(".", FontStyle::Font5x8, 68, 2),
            op("0", FontStyle::Font5x8, 73, 2),
            op(".", FontStyle::Font5x8, 78, 2),
            op("17", FontStyle::Font6x12, 83, 2),
        ])
    );
}

#[test]
fn prefix_and_suffix_are_resolved_too() {
    let e = element(
        PositionValue::Number(0),
        PositionValue::Number(0),
        vec![component(run("interface_phys", "FONT_5X8"), ":", "FONT_5X8", run("interface_numvlan", "FONT_5X8"))],
    );
    assert_eq!(
        layout(&e, &snapshot(), 128),
        Some(vec![
            op("eth", FontStyle::Font5x8, 0, 0),
            op(":", FontStyle::Font5x8, 15, 0),
            op("0.99", FontStyle::Font5x8, 20, 0),
        ])
    );
}

#[test]
fn element_without_components_draws_nothing() {
    let e = element(keyword("center"), PositionValue::Number(8), vec![]);
    assert_eq!(layout(&e, &snapshot(), 128), Some(vec![]));
}

#[test]
fn canvas_alignment() {
    assert_eq!(resolve_x(&keyword("center"), 128, 20), 54);
    assert_eq!(resolve_x(&keyword("left"), 128, 20), 0);
    assert_eq!(resolve_x(&keyword("right"), 128, 20), 108);
    assert_eq!(resolve_x(&keyword("center"), 128, 21), 53);
    assert_eq!(resolve_x(&keyword("center"), 128, 128), 0);
    assert_eq!(resolve_x(&keyword("right"), 128, 128), 0);
    assert_eq!(resolve_x(&keyword("center"), 32, 0), 16);
}

#[test]
fn wide_elements_are_not_clamped() {
    assert_eq!(resolve_x(&keyword("center"), 10, 25), -7);
    assert_eq!(resolve_x(&keyword("right"), 10, 25), -15);
    assert_eq!(resolve_x(&keyword("center"), 128, 129), 0);
    assert_eq!(resolve_x(&keyword("right"), 128, 129), -1);
    assert_eq!(resolve_x(&keyword("left"), 10, 25), 0);
    let e = element(
        keyword("right"),
        PositionValue::Number(0),
        vec![component(None, "ip_info.0", "PCSENIOR8_STYLE", None)],
    );
    assert_eq!(layout(&e, &snapshot(), 32), Some(vec![op("192.168.0.17", FontStyle::PcSenior8, -64, 0)]));
}

#[test]
fn anchor_alignment() {
    assert_eq!(resolve_x(&relative("center", 64), 128, 20), 54);
    assert_eq!(resolve_x(&relative("center", 64), 128, 21), 54);
    assert_eq!(resolve_x(&relative("center", 64), 128, 1), 64);
    assert_eq!(resolve_x(&relative("center", 3), 128, 20), -7);
    assert_eq!(resolve_x(&relative("left", 64), 128, 20), 64);
    assert_eq!(resolve_x(&relative("right", 64), 128, 20), 44);
    assert_eq!(resolve_x(&relative("right", 5), 128, 20), -15);
}

#[test]
fn unknown_keywords_fall_back() {
    assert_eq!(resolve_x(&keyword("middle"), 128, 20), 0);
    assert_eq!(resolve_x(&keyword("Center"), 128, 20), 0);
    assert_eq!(resolve_x(&relative("middle", 64), 128, 20), 64);
    assert_eq!(resolve_x(&PositionValue::Number(-3), 128, 20), -3);
    assert_eq!(resolve_x(&PositionValue::Number(500), 128, 20), 500);
}

#[test]
fn vertical_origin() {
    assert_eq!(resolve_y(&PositionValue::Number(22)), 22);
    assert_eq!(resolve_y(&PositionValue::Number(-4)), -4);
    assert_eq!(resolve_y(&keyword("incrementing")), 0);
    assert_eq!(resolve_y(&keyword("center")), 0);
    assert_eq!(resolve_y(&relative("center", 12)), 12);
}

#[test]
fn layout_out_of_range_is_none() {
    let unit = vec![component(None, "x", "FONT_5X8", None)];
    let far_left = element(keyword("right"), PositionValue::Number(0), unit.clone());
    assert_eq!(layout(&far_left, &snapshot(), i32::MIN), None);
    assert_eq!(
        layout(&far_left, &snapshot(), i32::MIN + 5),
        Some(vec![op("x", FontStyle::Font5x8, i32::MIN, 0)])
    );
    let far_right = element(PositionValue::Number(i32::MAX - 4), PositionValue::Number(0), unit.clone());
    assert_eq!(layout(&far_right, &snapshot(), 128), None);
    let just_right = element(PositionValue::Number(i32::MAX - 5), PositionValue::Number(0), unit);
    assert_eq!(
        layout(&just_right, &snapshot(), 128),
        Some(vec![op("x", FontStyle::Font5x8, i32::MAX - 5, 0)])
    );
}
