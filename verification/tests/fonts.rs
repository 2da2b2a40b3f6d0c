use rustberry_poe_monitor::font::{width_of, FontMetrics, FontStyle};

#[test]
fn width_of_counts_cells() {
    assert_eq!(width_of("FONT_5X8", "42.0"), Some(20));
    assert_eq!(width_of("FONT_6X12", "42.0"), Some(24));
    assert_eq!(width_of("PCSENIOR8_STYLE", "42.0"), Some(32));
    assert_eq!(width_of("PROFONT12", "42.0"), Some(32));
    assert_eq!(width_of("PROFONT9", "42.0"), Some(24));
}

#[test]
fn empty_text_has_no_width() {
    for name in ["FONT_5X8", "FONT_6X12", "PCSENIOR8_STYLE", "PROFONT12", "PROFONT9", "BOGUS"] {
        assert_eq!(width_of(name, ""), Some(0));
    }
}

#[test]
fn width_counts_bytes() {
    assert_eq!(width_of("FONT_5X8", "21\u{b0}C"), Some(25));
}

#[test]
fn unknown_font_is_the_smallest() {
    assert_eq!(FontStyle::named("BOGUS"), FontStyle::Font5x8);
    assert_eq!(FontStyle::named("font_6x12"), FontStyle::Font5x8);
    assert_eq!(FontStyle::named(""), FontStyle::Font5x8);
    assert_eq!(width_of("BOGUS", "abc"), Some(15));
}

#[test]
fn names_and_fonts_correspond() {
    let fonts = [
        FontStyle::Font5x8,
        FontStyle::Font6x12,
        FontStyle::PcSenior8,
        FontStyle::ProFont12,
        FontStyle::ProFont9,
    ];
    for font in fonts {
        assert_eq!(FontStyle::named(font.name()), font);
    }
    assert_eq!(FontStyle::Font5x8.name(), "FONT_5X8");
    assert_eq!(FontStyle::PcSenior8.name(), "PCSENIOR8_STYLE");
}

#[test]
fn metrics_of_the_ascii_fonts() {
    assert_eq!(
        FontStyle::Font5x8.metrics(),
        FontMetrics { cell_width: 5, cell_height: 8, spacing: 0, baseline: 6 }
    );
    assert_eq!(
        FontStyle::Font6x12.metrics(),
        FontMetrics { cell_width: 6, cell_height: 12, spacing: 0, baseline: 9 }
    );
}

#[test]
fn metrics_of_profont() {
    assert_eq!(
        FontStyle::ProFont12.metrics(),
        FontMetrics { cell_width: 7, cell_height: 15, spacing: 1, baseline: 11 }
    );
    assert_eq!(
        FontStyle::ProFont9.metrics(),
        FontMetrics { cell_width: 6, cell_height: 11, spacing: 0, baseline: 8 }
    );
}

#[test]
fn metrics_of_pc_senior() {
    assert_eq!(
        FontStyle::PcSenior8.metrics(),
        FontMetrics { cell_width: 8, cell_height: 10, spacing: 0, baseline: 7 }
    );
}

#[test]
fn advance_is_cell_plus_spacing() {
    assert_eq!(FontStyle::Font5x8.advance(), 5);
    assert_eq!(FontStyle::Font6x12.advance(), 6);
    assert_eq!(FontStyle::PcSenior8.advance(), 8);
    assert_eq!(FontStyle::ProFont12.advance(), 8);
    assert_eq!(FontStyle::ProFont9.advance(), 6);
}
