//! The layout engine: from an element and a telemetry snapshot to the texts
//! to draw and the pixel each one starts at.

use vstd::prelude::*;
use crate::config::{ComponentModel, ElementConfig, ElementModel, PositionModel, PositionValue, RunModel};
use crate::font::FontStyle;
use crate::telemetry::{resolve, resolved, Telemetry, TelemetryModel};
use crate::text::{same_text, text_len};

verus! {

/// One text to draw: what, in which font, and where its top left corner goes.
#[derive(Clone, Debug, PartialEq, Eq)]
pub struct DrawOp {
    pub text: String,
    pub font: FontStyle,
    pub x: i32,
    pub y: i32,
}

/// A drawing operation as contracts see it.
pub struct DrawModel {
    pub text: Seq<char>,
    pub font: FontStyle,
    pub x: int,
    pub y: int,
}

impl View for DrawOp {
    type V = DrawModel;

    open spec fn view(&self) -> DrawModel {
        DrawModel { text: self.text@, font: self.font, x: self.x as int, y: self.y as int }
    }
}

/// The models of a sequence of drawing operations.
pub open spec fn draw_models(ops: Seq<DrawOp>) -> Seq<DrawModel> {
    ops.map_values(|op: DrawOp| op@)
}

/// A run with its token resolved and its font looked up.
pub struct Run {
    pub text: Seq<char>,
    pub font: FontStyle,
}

/// The run that a configured run becomes under a snapshot.
pub open spec fn run_of(r: RunModel, t: TelemetryModel) -> Run {
    Run { text: resolved(r.text, t), font: FontStyle::spec_named(r.font) }
}

/// Pixel width of a run.
pub open spec fn run_width(r: Run) -> int {
    r.font.spec_width(r.text)
}

/// Pixel width of a component: its value, and its prefix and suffix where it
/// has them.
pub open spec fn component_width(c: ComponentModel, t: TelemetryModel) -> int {
    (match c.prefix {
        Some(p) => run_width(run_of(p, t)),
        None => 0,
    }) + run_width(run_of(c.value, t)) + (match c.suffix {
        Some(s) => run_width(run_of(s, t)),
        None => 0,
    })
}

/// Pixel width of an element: the sum of the widths of its components.
pub open spec fn element_width(cs: Seq<ComponentModel>, t: TelemetryModel) -> int
    decreases cs.len(),
{
    if cs.len() == 0 {
        0
    } else {
        element_width(cs.drop_last(), t) + component_width(cs.last(), t)
    }
}

/// The runs of a component in drawing order: prefix, value, suffix.
pub open spec fn component_runs(c: ComponentModel, t: TelemetryModel) -> Seq<Run> {
    (match c.prefix {
        Some(p) => seq![run_of(p, t)],
        None => Seq::<Run>::empty(),
    }) + seq![run_of(c.value, t)] + (match c.suffix {
        Some(s) => seq![run_of(s, t)],
        None => Seq::<Run>::empty(),
    })
}

/// The runs of an element in drawing order: those of its components, one
/// component after the other.
pub open spec fn element_runs(cs: Seq<ComponentModel>, t: TelemetryModel) -> Seq<Run>
    decreases cs.len(),
{
    if cs.len() == 0 {
        Seq::<Run>::empty()
    } else {
        element_runs(cs.drop_last(), t) + component_runs(cs.last(), t)
    }
}

/// Total pixel width of a sequence of runs.
pub open spec fn runs_width(runs: Seq<Run>) -> int
    decreases runs.len(),
{
    if runs.len() == 0 {
        0
    } else {
        runs_width(runs.drop_last()) + run_width(runs.last())
    }
}

/// Half of `n`, rounded toward zero.
pub open spec fn half(n: int) -> int {
    if n >= 0 {
        n / 2
    } else {
        -((-n) / 2)
    }
}

/// The left edge of an element of the given width on a canvas of the given
/// width. A keyword aligns the element on the canvas, an alignment aligns it
/// around its anchor; an unknown keyword means the left edge of the canvas
/// and an unknown alignment the anchor itself.
pub open spec fn origin_x(x: PositionModel, canvas_width: int, width: int) -> int {
    match x {
        PositionModel::Number(n) => n,
        PositionModel::Text(keyword) => if keyword == "center"@ {
            half(canvas_width - width)
        } else if keyword == "right"@ {
            canvas_width - width
        } else {
            0
        },
        PositionModel::Relative { align, anchor } => if align == "center"@ {
            anchor - half(width)
        } else if align == "right"@ {
            anchor - width
        } else {
            anchor
        },
    }
}

/// The top edge of an element. Every keyword means the top of the canvas,
/// and an alignment means its anchor.
pub open spec fn origin_y(y: PositionModel) -> int {
    match y {
        PositionModel::Number(n) => n,
        PositionModel::Text(_) => 0,
        PositionModel::Relative { align, anchor } => anchor,
    }
}

/// The runs set side by side from `x` on, all at height `y`: each run starts
/// where the widths of the runs before it end.
pub open spec fn placed(runs: Seq<Run>, x: int, y: int) -> Seq<DrawModel> {
    Seq::new(
        runs.len(),
        |j: int| DrawModel { text: runs[j].text, font: runs[j].font, x: x + runs_width(runs.take(j)), y },
    )
}

/// The drawing operations of an element on a canvas of the given width.
pub open spec fn element_layout(e: ElementModel, t: TelemetryModel, canvas_width: int) -> Seq<DrawModel> {
    placed(
        element_runs(e.components, t),
        origin_x(e.position.x, canvas_width, element_width(e.components, t)),
        origin_y(e.position.y),
    )
}

/// Whether the element can be laid out in `i32` pixel coordinates: its width,
/// its left edge and its right edge are all within range.
pub open spec fn fits(e: ElementModel, t: TelemetryModel, canvas_width: int) -> bool {
    let width = element_width(e.components, t);
    let x = origin_x(e.position.x, canvas_width, width);
    width <= i32::MAX && i32::MIN <= x && x + width <= i32::MAX
}

/// No run has a negative width.
pub proof fn lemma_run_width_nonnegative(r: Run)
    ensures
        0 <= run_width(r),
{
    let n = text_len(r.text) as int;
    let a = r.font.spec_advance();
    assert(0 <= n * a) by (nonlinear_arith)
        requires
            0 <= n,
            0 <= a,
    ;
}

/// No component has a negative width.
pub proof fn lemma_component_width_nonnegative(c: ComponentModel, t: TelemetryModel)
    ensures
        0 <= component_width(c, t),
{
    lemma_run_width_nonnegative(run_of(c.value, t));
    if c.prefix is Some {
        lemma_run_width_nonnegative(run_of(c.prefix->0, t));
    }
    if c.suffix is Some {
        lemma_run_width_nonnegative(run_of(c.suffix->0, t));
    }
}

/// The first `i` components of an element are no wider than all of them, and
/// no element has a negative width.
pub proof fn lemma_element_width_grows(cs: Seq<ComponentModel>, t: TelemetryModel, i: int)
    requires
        0 <= i <= cs.len(),
    ensures
        0 <= element_width(cs.take(i), t) <= element_width(cs, t),
    decreases cs.len(),
{
    if cs.len() == 0 {
        assert(cs.take(i) =~= cs);
    } else if i == cs.len() {
        assert(cs.take(i) =~= cs);
        lemma_element_width_grows(cs.drop_last(), t, 0);
        assert(cs.drop_last().take(0).len() == 0);
        lemma_component_width_nonnegative(cs.last(), t);
    } else {
        lemma_element_width_grows(cs.drop_last(), t, i);
        assert(cs.drop_last().take(i) =~= cs.take(i));
        lemma_component_width_nonnegative(cs.last(), t);
    }
}

/// The first `j` runs are no wider than all of them, and no sequence of runs
/// has a negative width.
pub proof fn lemma_runs_width_grows(runs: Seq<Run>, j: int)
    requires
        0 <= j <= runs.len(),
    ensures
        0 <= runs_width(runs.take(j)) <= runs_width(runs),
    decreases runs.len(),
{
    if runs.len() == 0 {
        assert(runs.take(j) =~= runs);
    } else if j == runs.len() {
        assert(runs.take(j) =~= runs);
        lemma_runs_width_grows(runs.drop_last(), 0);
        assert(runs.drop_last().take(0).len() == 0);
        lemma_run_width_nonnegative(runs.last());
    } else {
        lemma_runs_width_grows(runs.drop_last(), j);
        assert(runs.drop_last().take(j) =~= runs.take(j));
        lemma_run_width_nonnegative(runs.last());
    }
}

/// Runs set one after the other are as wide as both parts together.
pub proof fn lemma_runs_width_concat(a: Seq<Run>, b: Seq<Run>)
    ensures
        runs_width(a + b) == runs_width(a) + runs_width(b),
    decreases b.len(),
{
    if b.len() == 0 {
        assert(a + b =~= a);
    } else {
        lemma_runs_width_concat(a, b.drop_last());
        assert((a + b).drop_last() =~= a + b.drop_last());
    }
}

/// The runs of a component are as wide as the component.
pub proof fn lemma_component_runs_width(c: ComponentModel, t: TelemetryModel)
    ensures
        runs_width(component_runs(c, t)) == component_width(c, t),
{
    let prefix = match c.prefix {
        Some(p) => seq![run_of(p, t)],
        None => Seq::<Run>::empty(),
    };
    let value = seq![run_of(c.value, t)];
    let suffix = match c.suffix {
        Some(s) => seq![run_of(s, t)],
        None => Seq::<Run>::empty(),
    };
    lemma_runs_width_concat(prefix + value, suffix);
    lemma_runs_width_concat(prefix, value);
    reveal_with_fuel(runs_width, 2);
    assert(value.drop_last() =~= Seq::<Run>::empty());
    if c.prefix is Some {
        assert(prefix.drop_last() =~= Seq::<Run>::empty());
    }
    if c.suffix is Some {
        assert(suffix.drop_last() =~= Seq::<Run>::empty());
    }
}

/// The runs of an element are as wide as the element.
pub proof fn lemma_element_runs_width(cs: Seq<ComponentModel>, t: TelemetryModel)
    ensures
        runs_width(element_runs(cs, t)) == element_width(cs, t),
    decreases cs.len(),
{
    if cs.len() > 0 {
        lemma_element_runs_width(cs.drop_last(), t);
        lemma_component_runs_width(cs.last(), t);
        lemma_runs_width_concat(element_runs(cs.drop_last(), t), component_runs(cs.last(), t));
    }
}

/// On a canvas of width `canvas_width`, an element of width `width` that is
/// centered starts at half the space left over, one aligned left starts at
/// 0, and one aligned right starts where the space left over ends. An
/// element no wider than the canvas stays on it; a wider one starts left of
/// the canvas and is not pulled back.
pub proof fn lemma_canvas_alignment(canvas_width: int, width: int)
    ensures
        origin_x(PositionModel::Text("center"@), canvas_width, width) == half(canvas_width - width),
        origin_x(PositionModel::Text("left"@), canvas_width, width) == 0,
        origin_x(PositionModel::Text("right"@), canvas_width, width) == canvas_width - width,
        0 <= width <= canvas_width ==> {
            &&& origin_x(PositionModel::Text("center"@), canvas_width, width) == (canvas_width - width) / 2
            &&& 0 <= origin_x(PositionModel::Text("center"@), canvas_width, width) <= canvas_width - width
        },
        width > canvas_width ==> {
            &&& origin_x(PositionModel::Text("right"@), canvas_width, width) < 0
            &&& origin_x(PositionModel::Text("center"@), canvas_width, width) == -((width - canvas_width) / 2)
        },
{
    reveal_strlit("center");
    reveal_strlit("left");
    reveal_strlit("right");
    assert("center"@.len() == 6);
    assert("left"@.len() == 4);
    assert("right"@.len() == 5);
}

/// An element of width `width` centered around an anchor starts half its
/// width left of the anchor, the half rounded toward zero: an even width
/// `2 * k` and the odd width `2 * k + 1` both start `k` pixels left of it.
/// Aligned left it starts at the anchor, aligned right it ends there.
pub proof fn lemma_anchor_alignment(anchor: int, canvas_width: int, width: int, k: int)
    ensures
        origin_x(PositionModel::Relative { align: "center"@, anchor }, canvas_width, width) == anchor - half(
            width,
        ),
        origin_x(PositionModel::Relative { align: "left"@, anchor }, canvas_width, width) == anchor,
        origin_x(PositionModel::Relative { align: "right"@, anchor }, canvas_width, width) == anchor
            - width,
        0 <= k && (width == 2 * k || width == 2 * k + 1) ==> origin_x(
            PositionModel::Relative { align: "center"@, anchor },
            canvas_width,
            width,
        ) == anchor - k,
{
    reveal_strlit("center");
    reveal_strlit("left");
    reveal_strlit("right");
    assert("center"@.len() == 6);
    assert("left"@.len() == 4);
    assert("right"@.len() == 5);
}

/// A component without a prefix is as wide as its value and its suffix
/// together, and its suffix starts where its value ends.
pub proof fn lemma_suffix_follows_value(c: ComponentModel, t: TelemetryModel, x: int, y: int)
    requires
        c.prefix is None,
        c.suffix is Some,
    ensures
        component_width(c, t) == run_width(run_of(c.value, t)) + run_width(run_of(c.suffix->0, t)),
        placed(component_runs(c, t), x, y).len() == 2,
        placed(component_runs(c, t), x, y)[0] == (DrawModel {
            text: resolved(c.value.text, t),
            font: FontStyle::spec_named(c.value.font),
            x,
            y,
        }),
        placed(component_runs(c, t), x, y)[1] == (DrawModel {
            text: resolved(c.suffix->0.text, t),
            font: FontStyle::spec_named(c.suffix->0.font),
            x: x + run_width(run_of(c.value, t)),
            y,
        }),
{
    let runs = component_runs(c, t);
    assert(runs =~= seq![run_of(c.value, t), run_of(c.suffix->0, t)]);
    reveal_with_fuel(runs_width, 2);
    assert(runs.take(0) =~= Seq::<Run>::empty());
    assert(runs.take(1) =~= seq![run_of(c.value, t)]);
    assert(runs.take(1).drop_last() =~= Seq::<Run>::empty());
}

/// An element without components draws nothing.
pub proof fn lemma_empty_element_draws_nothing(e: ElementModel, t: TelemetryModel, canvas_width: int)
    requires
        e.components.len() == 0,
    ensures
        element_layout(e, t, canvas_width).len() == 0,
        element_width(e.components, t) == 0,
{
}

/// The left edge of an element of the given width: see [`origin_x`].
pub fn resolve_x(x: &PositionValue, canvas_width: i32, width: i32) -> (r: i64)
    ensures
        r == origin_x(x@, canvas_width as int, width as int),
{
    match x {
        PositionValue::Number(n) => *n as i64,
        PositionValue::Text(keyword) => {
            if same_text(keyword.as_str(), "center") {
                (canvas_width as i64 - width as i64) / 2
            } else if same_text(keyword.as_str(), "right") {
                canvas_width as i64 - width as i64
            } else {
                0
            }
        },
        PositionValue::Relative { align, anchor } => {
            if same_text(align.as_str(), "center") {
                *anchor as i64 - (width as i64) / 2
            } else if same_text(align.as_str(), "right") {
                *anchor as i64 - width as i64
            } else {
                *anchor as i64
            }
        },
    }
}

/// The top edge of an element: see [`origin_y`].
pub fn resolve_y(y: &PositionValue) -> (r: i32)
    ensures
        r == origin_y(y@),
{
    match y {
        PositionValue::Number(n) => *n,
        PositionValue::Text(_) => 0,
        PositionValue::Relative { align: _, anchor } => *anchor,
    }
}

/// Whether `ops` are `runs` set side by side from `x` on at height `y`.
pub open spec fn row(ops: Seq<DrawOp>, runs: Seq<Run>, x: int, y: int) -> bool {
    &&& ops.len() == runs.len()
    &&& forall|j: int|
        0 <= j < ops.len() ==> (#[trigger] ops[j])@ == (DrawModel {
            text: runs[j].text,
            font: runs[j].font,
            x: x + runs_width(runs.take(j)),
            y,
        })
}

/// Resolves and measures one run and appends it to the row at offset
/// `total`. Gives the offset after the run, or `None` where that is more
/// than an `i32` holds.
fn append_run(
    ops: &mut Vec<DrawOp>,
    text: &str,
    font: &str,
    telemetry: &Telemetry,
    y: i32,
    total: i32,
    Ghost(runs): Ghost<Seq<Run>>,
) -> (next: Option<i32>)
    requires
        row(old(ops)@, runs, 0, y as int),
        total == runs_width(runs),
    ensures
        match next {
            Some(n) => {
                let run = run_of(RunModel { text: text@, font: font@ }, telemetry@);
                &&& n == total + run_width(run)
                &&& n == runs_width(runs.push(run))
                &&& row(final(ops)@, runs.push(run), 0, y as int)
            },
            None => total + run_width(run_of(RunModel { text: text@, font: font@ }, telemetry@))
                > i32::MAX,
        },
{
    let ghost run = run_of(RunModel { text: text@, font: font@ }, telemetry@);
    proof {
        lemma_runs_width_grows(runs, 0);
        assert(runs.take(runs.len() as int) =~= runs);
    }
    let resolved_text = resolve(text, telemetry);
    let style = FontStyle::named(font);
    match style.width(resolved_text.as_str()) {
        None => None,
        Some(width) => {
            if width > i32::MAX - total {
                None
            } else {
                ops.push(DrawOp { text: resolved_text, font: style, x: total, y });
                proof {
                    let longer = runs.push(run);
                    assert(longer.drop_last() =~= runs);
                    assert(runs_width(longer) == runs_width(runs) + run_width(run));
                    assert forall|j: int| 0 <= j < ops@.len() implies (#[trigger] ops@[j])@ == (DrawModel {
                        text: longer[j].text,
                        font: longer[j].font,
                        x: 0 + runs_width(longer.take(j)),
                        y: y as int,
                    }) by {
                        assert(longer.take(j) =~= runs.take(j));
                    }
                }
                Some(total + width)
            }
        },
    }
}

/// Lays an element out on a canvas of the given width: resolves and measures
/// every run, finds the origin of the element from its total width, and sets
/// the runs side by side from there. `None` where the element does not fit
/// into `i32` pixel coordinates.
pub fn layout(element: &ElementConfig, telemetry: &Telemetry, canvas_width: i32) -> (r: Option<Vec<DrawOp>>)
    ensures
        match r {
            Some(ops) => {
                &&& fits(element@, telemetry@, canvas_width as int)
                &&& draw_models(ops@) == element_layout(element@, telemetry@, canvas_width as int)
            },
            None => !fits(element@, telemetry@, canvas_width as int),
        },
{
    let ghost cs = element@.components;
    let ghost t = telemetry@;
    let y = resolve_y(&element.position.y);
    let mut ops: Vec<DrawOp> = Vec::new();
    let mut total: i32 = 0;
    let ghost mut runs: Seq<Run> = Seq::empty();
    let mut i: usize = 0;
    while i < element.components.len()
        invariant
            i <= element.components.len(),
            cs == element@.components,
            cs.len() == element.components.len(),
            t == telemetry@,
            y == origin_y(element@.position.y),
            runs == element_runs(cs.take(i as int), t),
            total == runs_width(runs),
            total == element_width(cs.take(i as int), t),
            row(ops@, runs, 0, y as int),
        decreases element.components.len() - i,
    {
        let c = &element.components[i];
        let ghost before = runs;
        proof {
            assert(cs[i as int] == c@);
            assert(cs.take(i + 1).drop_last() =~= cs.take(i as int));
            lemma_element_width_grows(cs, t, i + 1);
            lemma_component_width_nonnegative(c@, t);
            lemma_run_width_nonnegative(run_of(c@.value, t));
            if c@.prefix is Some {
                lemma_run_width_nonnegative(run_of(c@.prefix->0, t));
            }
            if c@.suffix is Some {
                lemma_run_width_nonnegative(run_of(c@.suffix->0, t));
            }
        }
        match &c.prefix {
            Some(p) => {
                match append_run(&mut ops, p.text.as_str(), p.font.as_str(), telemetry, y, total, Ghost(runs)) {
                    Some(n) => {
                        total = n;
                        proof {
                            runs = runs.push(run_of(p@, t));
                        }
                    },
                    None => {
                        return None;
                    },
                }
            },
            None => {},
        }
        match append_run(&mut ops, c.value.text.as_str(), c.value.font.as_str(), telemetry, y, total, Ghost(runs)) {
            Some(n) => {
                total = n;
                proof {
                    runs = runs.push(run_of(c@.value, t));
                }
            },
            None => {
                return None;
            },
        }
        match &c.suffix {
            Some(s) => {
                match append_run(&mut ops, s.text.as_str(), s.font.as_str(), telemetry, y, total, Ghost(runs)) {
                    Some(n) => {
                        total = n;
                        proof {
                            runs = runs.push(run_of(s@, t));
                        }
                    },
                    None => {
                        return None;
                    },
                }
            },
            None => {},
        }
        proof {
            assert(runs =~= before + component_runs(c@, t));
        }
        i += 1;
    }
    proof {
        assert(cs.take(i as int) =~= cs);
    }
    let x: i64 = resolve_x(&element.position.x, canvas_width, total);
    if x < i32::MIN as i64 || x + total as i64 > i32::MAX as i64 {
        return None;
    }
    let mut j: usize = 0;
    while j < ops.len()
        invariant
            j <= ops.len(),
            ops.len() == runs.len(),
            i32::MIN <= x,
            x + total <= i32::MAX,
            total == runs_width(runs),
            forall|k: int|
                0 <= k < j ==> (#[trigger] ops@[k])@ == (DrawModel {
                    text: runs[k].text,
                    font: runs[k].font,
                    x: x + runs_width(runs.take(k)),
                    y: y as int,
                }),
            forall|k: int|
                j <= k < ops.len() ==> (#[trigger] ops@[k])@ == (DrawModel {
                    text: runs[k].text,
                    font: runs[k].font,
                    x: 0 + runs_width(runs.take(k)),
                    y: y as int,
                }),
        decreases ops.len() - j,
    {
        proof {
            lemma_runs_width_grows(runs, j as int);
        }
        let offset: i32 = ops[j].x;
        ops[j].x = (x + offset as i64) as i32;
        j += 1;
    }
    proof {
        assert(draw_models(ops@) =~= element_layout(element@, t, canvas_width as int));
    }
    Some(ops)
}

} // verus!
