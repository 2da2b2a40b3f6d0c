//! The catalogue of fixed-pitch fonts a configuration can name.

use vstd::prelude::*;
use crate::text::{byte_len, same_text, text_len};

verus! {

/// One of the fonts of the catalogue.
#[derive(Clone, Copy, Debug, PartialEq, Eq, Structural)]
pub enum FontStyle {
    /// The 5x8 ASCII bitmap font, which is also what an unknown name stands for.
    Font5x8,
    /// The 6x12 ASCII bitmap font.
    Font6x12,
    /// The 8x10 font rasterised from the PC Senior typeface.
    PcSenior8,
    /// ProFont at 12 points.
    ProFont12,
    /// ProFont at 9 points.
    ProFont9,
}

/// What layout needs to know of a font: every glyph takes the same cell.
#[derive(Clone, Copy, Debug, PartialEq, Eq, Structural)]
pub struct FontMetrics {
    /// Width of a glyph cell in pixels.
    pub cell_width: u32,
    /// Height of a glyph cell in pixels.
    pub cell_height: u32,
    /// Empty pixels between two neighbouring cells.
    pub spacing: u32,
    /// Distance from the top of the cell down to the baseline.
    pub baseline: u32,
}

/// Metrics of `embedded_graphics::mono_font::ascii::FONT_5X8`, read from the
/// constant itself: a 5x8 cell, no spacing, baseline at 6.
#[verifier::external_body]
fn font_5x8_metrics() -> (m: FontMetrics)
    ensures
        m == (FontMetrics { cell_width: 5, cell_height: 8, spacing: 0, baseline: 6 }),
{
    let f = &embedded_graphics::mono_font::ascii::FONT_5X8;
    FontMetrics {
        cell_width: f.character_size.width,
        cell_height: f.character_size.height,
        spacing: f.character_spacing,
        baseline: f.baseline,
    }
}

/// Metrics of `embedded_graphics::mono_font::ascii::FONT_6X12`, read from the
/// constant itself: a 6x12 cell, no spacing, baseline at 9.
#[verifier::external_body]
fn font_6x12_metrics() -> (m: FontMetrics)
    ensures
        m == (FontMetrics { cell_width: 6, cell_height: 12, spacing: 0, baseline: 9 }),
{
    let f = &embedded_graphics::mono_font::ascii::FONT_6X12;
    FontMetrics {
        cell_width: f.character_size.width,
        cell_height: f.character_size.height,
        spacing: f.character_spacing,
        baseline: f.baseline,
    }
}

/// Metrics of `profont::PROFONT_12_POINT`, read from the constant itself: a
/// 7x15 cell, one pixel of spacing, baseline at 11.
#[verifier::external_body]
fn profont_12_metrics() -> (m: FontMetrics)
    ensures
        m == (FontMetrics { cell_width: 7, cell_height: 15, spacing: 1, baseline: 11 }),
{
    let f = &profont::PROFONT_12_POINT;
    FontMetrics {
        cell_width: f.character_size.width,
        cell_height: f.character_size.height,
        spacing: f.character_spacing,
        baseline: f.baseline,
    }
}

/// Metrics of `profont::PROFONT_9_POINT`, read from the constant itself: a
/// 6x11 cell, no spacing, baseline at 8.
#[verifier::external_body]
fn profont_9_metrics() -> (m: FontMetrics)
    ensures
        m == (FontMetrics { cell_width: 6, cell_height: 11, spacing: 0, baseline: 8 }),
{
    let f = &profont::PROFONT_9_POINT;
    FontMetrics {
        cell_width: f.character_size.width,
        cell_height: f.character_size.height,
        spacing: f.character_spacing,
        baseline: f.baseline,
    }
}

impl FontStyle {
    /// The font that a name in a configuration stands for. Names are matched
    /// exactly; any other text stands for the 5x8 font.
    pub open spec fn spec_named(name: Seq<char>) -> FontStyle {
        if name == "FONT_6X12"@ {
            FontStyle::Font6x12
        } else if name == "PCSENIOR8_STYLE"@ {
            FontStyle::PcSenior8
        } else if name == "PROFONT12"@ {
            FontStyle::ProFont12
        } else if name == "PROFONT9"@ {
            FontStyle::ProFont9
        } else {
            FontStyle::Font5x8
        }
    }

    /// The metrics of each font.
    pub open spec fn spec_metrics(self) -> FontMetrics {
        match self {
            FontStyle::Font5x8 => FontMetrics { cell_width: 5, cell_height: 8, spacing: 0, baseline: 6 },
            FontStyle::Font6x12 => FontMetrics { cell_width: 6, cell_height: 12, spacing: 0, baseline: 9 },
            FontStyle::PcSenior8 => FontMetrics { cell_width: 8, cell_height: 10, spacing: 0, baseline: 7 },
            FontStyle::ProFont12 => FontMetrics { cell_width: 7, cell_height: 15, spacing: 1, baseline: 11 },
            FontStyle::ProFont9 => FontMetrics { cell_width: 6, cell_height: 11, spacing: 0, baseline: 8 },
        }
    }

    /// Pixels from the start of one glyph to the start of the next.
    pub open spec fn spec_advance(self) -> int {
        self.spec_metrics().cell_width + self.spec_metrics().spacing
    }

    /// Pixel width of `text` set in this font: every byte of the text takes
    /// one advance.
    pub open spec fn spec_width(self, text: Seq<char>) -> int {
        text_len(text) * self.spec_advance()
    }

    /// Looks a font up by its name; an unknown name gives the 5x8 font.
    pub fn named(name: &str) -> (font: FontStyle)
        ensures
            font == Self::spec_named(name@),
    {
        if same_text(name, "FONT_6X12") {
            FontStyle::Font6x12
        } else if same_text(name, "PCSENIOR8_STYLE") {
            FontStyle::PcSenior8
        } else if same_text(name, "PROFONT12") {
            FontStyle::ProFont12
        } else if same_text(name, "PROFONT9") {
            FontStyle::ProFont9
        } else {
            FontStyle::Font5x8
        }
    }

    /// The name a configuration uses for this font.
    pub fn name(self) -> (name: &'static str)
        ensures
            Self::spec_named(name@) == self,
            name@ == match self {
                FontStyle::Font5x8 => "FONT_5X8"@,
                FontStyle::Font6x12 => "FONT_6X12"@,
                FontStyle::PcSenior8 => "PCSENIOR8_STYLE"@,
                FontStyle::ProFont12 => "PROFONT12"@,
                FontStyle::ProFont9 => "PROFONT9"@,
            },
    {
        proof {
            reveal_strlit("FONT_5X8");
            reveal_strlit("FONT_6X12");
            reveal_strlit("PCSENIOR8_STYLE");
            reveal_strlit("PROFONT12");
            reveal_strlit("PROFONT9");
            assert("FONT_5X8"@.len() == 8 && "FONT_5X8"@[0] == 'F');
            assert("FONT_6X12"@.len() == 9 && "FONT_6X12"@[0] == 'F');
            assert("PCSENIOR8_STYLE"@.len() == 15);
            assert("PROFONT12"@.len() == 9 && "PROFONT12"@[0] == 'P');
            assert("PROFONT9"@.len() == 8 && "PROFONT9"@[0] == 'P');
        }
        match self {
            FontStyle::Font5x8 => "FONT_5X8",
            FontStyle::Font6x12 => "FONT_6X12",
            FontStyle::PcSenior8 => "PCSENIOR8_STYLE",
            FontStyle::ProFont12 => "PROFONT12",
            FontStyle::ProFont9 => "PROFONT9",
        }
    }

    /// The metrics of this font.
    pub fn metrics(self) -> (m: FontMetrics)
        ensures
            m == self.spec_metrics(),
    {
        match self {
            FontStyle::Font5x8 => font_5x8_metrics(),
            FontStyle::Font6x12 => font_6x12_metrics(),
            FontStyle::PcSenior8 => FontMetrics { cell_width: 8, cell_height: 10, spacing: 0, baseline: 7 },
            FontStyle::ProFont12 => profont_12_metrics(),
            FontStyle::ProFont9 => profont_9_metrics(),
        }
    }

    /// Pixels from the start of one glyph to the start of the next.
    pub fn advance(self) -> (a: u32)
        ensures
            a == self.spec_advance(),
            5 <= a <= 8,
    {
        let m = self.metrics();
        m.cell_width + m.spacing
    }

    /// Pixel width of `text` set in this font, or `None` where that width is
    /// more than an `i32` holds.
    pub fn width(self, text: &str) -> (w: Option<i32>)
        ensures
            w == if self.spec_width(text@) <= i32::MAX {
                Some(self.spec_width(text@) as i32)
            } else {
                None
            },
    {
        let len: usize = byte_len(text);
        let advance: u64 = self.advance() as u64;
        if len > 0x7fff_ffff {
            assert(len * advance > i32::MAX) by (nonlinear_arith)
                requires
                    len > 0x7fff_ffff,
                    advance >= 1,
            ;
            return None;
        }
        assert(len * advance <= 0x4_0000_0000) by (nonlinear_arith)
            requires
                len <= 0x7fff_ffff,
                advance <= 8,
        ;
        let total: u64 = len as u64 * advance;
        if total > 0x7fff_ffff {
            None
        } else {
            Some(total as i32)
        }
    }
}

/// Under each name of the catalogue a text is as wide as its length times the
/// advance of that font, the empty text has no width in any font, and a name
/// that the catalogue lacks measures as the 5x8 font does.
pub proof fn lemma_catalogue_widths(text: Seq<char>, other: Seq<char>)
    ensures
        FontStyle::spec_named("FONT_5X8"@).spec_width(text) == text_len(text) * 5,
        FontStyle::spec_named("FONT_6X12"@).spec_width(text) == text_len(text) * 6,
        FontStyle::spec_named("PCSENIOR8_STYLE"@).spec_width(text) == text_len(text) * 8,
        FontStyle::spec_named("PROFONT12"@).spec_width(text) == text_len(text) * 8,
        FontStyle::spec_named("PROFONT9"@).spec_width(text) == text_len(text) * 6,
        FontStyle::spec_named(other).spec_width(Seq::<char>::empty()) == 0,
        other != "FONT_6X12"@ && other != "PCSENIOR8_STYLE"@ && other != "PROFONT12"@ && other
            != "PROFONT9"@ ==> FontStyle::spec_named(other) == FontStyle::Font5x8,
{
    reveal_strlit("FONT_5X8");
    reveal_strlit("FONT_6X12");
    reveal_strlit("PCSENIOR8_STYLE");
    reveal_strlit("PROFONT12");
    reveal_strlit("PROFONT9");
    assert("FONT_5X8"@.len() == 8 && "FONT_5X8"@[0] == 'F');
    assert("FONT_6X12"@.len() == 9 && "FONT_6X12"@[0] == 'F');
    assert("PCSENIOR8_STYLE"@.len() == 15);
    assert("PROFONT12"@.len() == 9 && "PROFONT12"@[0] == 'P');
    assert("PROFONT9"@.len() == 8 && "PROFONT9"@[0] == 'P');
    assert(text_len(Seq::<char>::empty()) == 0);
    let advance = FontStyle::spec_named(other).spec_advance();
    assert(0 * advance == 0) by (nonlinear_arith);
}

/// Pixel width of `text` set in the font that `font_name` stands for: the
/// length of the text times the advance of the font. `None` where that is
/// more than an `i32` holds.
pub fn width_of(font_name: &str, text: &str) -> (w: Option<i32>)
    ensures
        w == if FontStyle::spec_named(font_name@).spec_width(text@) <= i32::MAX {
            Some(FontStyle::spec_named(font_name@).spec_width(text@) as i32)
        } else {
            None
        },
{
    FontStyle::named(font_name).width(text)
}

} // verus!
