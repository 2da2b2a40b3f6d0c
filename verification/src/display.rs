//! The renderer: the drawing commands of one frame.

use vstd::prelude::*;
use vstd::string::*;
use crate::config::{
    ComponentModel, ConfigDocument, DisplayConfig, DocumentModel, ElementModel, LayoutModel, PositionModel,
    Rotation,
};
use crate::decode::{decode_document, decoded, outcome_model};
use crate::default_config::{default_layout, get_default_display_config, get_system_hostname, hostname_shown};
use crate::json::{parse, parsed_json};
use crate::font::FontStyle;
use crate::layout::{
    draw_models, element_layout, element_runs, element_width, fits, half, layout, origin_x, DrawModel, DrawOp,
    Run,
};
use crate::telemetry::{resolved, Telemetry, TelemetryModel};
use crate::text::{lemma_ascii_text_len, text_len};

verus! {

/// One step of drawing a frame.
#[derive(Clone, Debug, PartialEq, Eq)]
pub enum RenderCommand {
    /// Blank the whole framebuffer.
    Clear,
    /// Draw one text into the framebuffer.
    Draw(DrawOp),
    /// Send the framebuffer to the panel.
    Flush,
}

/// A command as contracts see it.
pub enum CommandModel {
    Clear,
    Draw(DrawModel),
    Flush,
}

impl View for RenderCommand {
    type V = CommandModel;

    open spec fn view(&self) -> CommandModel {
        match self {
            RenderCommand::Clear => CommandModel::Clear,
            RenderCommand::Draw(op) => CommandModel::Draw(op@),
            RenderCommand::Flush => CommandModel::Flush,
        }
    }
}

/// The models of a sequence of commands.
pub open spec fn command_models(commands: Seq<RenderCommand>) -> Seq<CommandModel> {
    commands.map_values(|c: RenderCommand| c@)
}

/// Each drawing operation as a command.
pub open spec fn as_commands(draws: Seq<DrawModel>) -> Seq<CommandModel> {
    draws.map_values(|d: DrawModel| CommandModel::Draw(d))
}

fn append_draws(commands: &mut Vec<RenderCommand>, ops: Vec<DrawOp>)
    ensures
        command_models(final(commands)@) == command_models(old(commands)@) + as_commands(draw_models(ops@)),
{
    let ghost before = commands@;
    for op in it: ops.into_iter()
        invariant
            it.seq() == ops@,
            commands@.len() == before.len() + it.index(),
            forall|k: int| 0 <= k < before.len() ==> #[trigger] commands@[k] == before[k],
            forall|k: int|
                0 <= k < it.index() ==> #[trigger] commands@[before.len() + k] == RenderCommand::Draw(
                    ops@[k],
                ),
    {
        commands.push(RenderCommand::Draw(op));
    }
    proof {
        let joined = command_models(before) + as_commands(draw_models(ops@));
        assert(commands@.len() == before.len() + ops@.len());
        assert forall|j: int| 0 <= j < commands@.len() implies command_models(commands@)[j] == joined[j] by {
            if j >= before.len() {
                assert(commands@[before.len() + (j - before.len())] == RenderCommand::Draw(ops@[j - before.len()]));
            }
        }
        assert(command_models(commands@) =~= joined);
    }
}

/// What can go wrong between a configuration and a finished frame.
#[derive(Clone, Debug, PartialEq, Eq)]
pub enum DisplayError {
    /// A configuration names an orientation that is neither landscape nor
    /// portrait.
    InvalidOrientation,
    /// The configuration could not be read; the text says why.
    IoError(String),
    /// The configuration is not a document of the expected syntax; the text
    /// says where it breaks.
    JsonError(String),
    /// The panel refused a command; the text says which failure it reported.
    DisplayError(String),
    /// The configuration does not describe a layout that can be drawn.
    ConfigError(String),
}

/// An error as contracts see it.
pub enum ErrorModel {
    InvalidOrientation,
    IoError(Seq<char>),
    JsonError(Seq<char>),
    DisplayError(Seq<char>),
    ConfigError(Seq<char>),
}

impl View for DisplayError {
    type V = ErrorModel;

    open spec fn view(&self) -> ErrorModel {
        match self {
            DisplayError::InvalidOrientation => ErrorModel::InvalidOrientation,
            DisplayError::IoError(m) => ErrorModel::IoError(m@),
            DisplayError::JsonError(m) => ErrorModel::JsonError(m@),
            DisplayError::DisplayError(m) => ErrorModel::DisplayError(m@),
            DisplayError::ConfigError(m) => ErrorModel::ConfigError(m@),
        }
    }
}

impl DisplayError {
    /// The error in words.
    pub open spec fn spec_message(&self) -> Seq<char> {
        match self {
            DisplayError::InvalidOrientation => "Invalid orientation"@,
            DisplayError::IoError(e) => "IO error: "@ + e@,
            DisplayError::JsonError(e) => "JSON error: "@ + e@,
            DisplayError::DisplayError(e) => "Display error: "@ + e@,
            DisplayError::ConfigError(e) => "Config error: "@ + e@,
        }
    }

    /// The error in words: what kind it is, then what it carries.
    pub fn message(&self) -> (m: String)
        ensures
            m@ == self.spec_message(),
    {
        match self {
            DisplayError::InvalidOrientation => String::from_str("Invalid orientation"),
            DisplayError::IoError(e) => String::from_str("IO error: ").concat(e.as_str()),
            DisplayError::JsonError(e) => String::from_str("JSON error: ").concat(e.as_str()),
            DisplayError::DisplayError(e) => String::from_str("Display error: ").concat(e.as_str()),
            DisplayError::ConfigError(e) => String::from_str("Config error: ").concat(e.as_str()),
        }
    }
}

/// The drawing operations of a frame: those of each element, one element
/// after the other.
pub open spec fn frame_draws(es: Seq<ElementModel>, t: TelemetryModel, canvas_width: int) -> Seq<DrawModel>
    decreases es.len(),
{
    if es.len() == 0 {
        Seq::<DrawModel>::empty()
    } else {
        frame_draws(es.drop_last(), t, canvas_width) + element_layout(es.last(), t, canvas_width)
    }
}

/// The commands of a frame: clear, then every drawing operation, then flush.
pub open spec fn frame(layout: LayoutModel, t: TelemetryModel) -> Seq<CommandModel> {
    seq![CommandModel::Clear] + as_commands(frame_draws(layout.elements, t, layout.width)) + seq![
        CommandModel::Flush,
    ]
}

/// Whether every element can be laid out in `i32` pixel coordinates.
pub open spec fn all_fit(es: Seq<ElementModel>, t: TelemetryModel, canvas_width: int) -> bool {
    forall|i: int| 0 <= i < es.len() ==> fits(#[trigger] es[i], t, canvas_width)
}

/// Whether element `i` is the first that cannot be laid out.
pub open spec fn first_unfit(es: Seq<ElementModel>, t: TelemetryModel, canvas_width: int, i: int) -> bool {
    &&& 0 <= i < es.len()
    &&& !fits(es[i], t, canvas_width)
    &&& forall|k: int| 0 <= k < i ==> fits(#[trigger] es[k], t, canvas_width)
}

/// What the error says of an element that cannot be laid out.
pub open spec fn unfit_message(id: Seq<char>) -> Seq<char> {
    "layout out of range: "@ + id
}

/// The commands that draw one frame of `config` under `telemetry`: clear the
/// framebuffer, draw every element in the order of the configuration, flush.
/// Fails on the first element that does not fit into `i32` pixel
/// coordinates, and names it.
pub fn render(config: &DisplayConfig, telemetry: &Telemetry) -> (r: Result<Vec<RenderCommand>, DisplayError>)
    ensures
        match r {
            Ok(commands) => {
                &&& all_fit(config@.elements, telemetry@, config@.width)
                &&& command_models(commands@) == frame(config@, telemetry@)
            },
            Err(e) => exists|i: int|
                {
                    &&& #[trigger] first_unfit(config@.elements, telemetry@, config@.width, i)
                    &&& e@ == ErrorModel::ConfigError(unfit_message(config@.elements[i].id))
                },
        },
{
    let ghost es = config@.elements;
    let ghost t = telemetry@;
    let ghost w = config@.width;
    let mut commands: Vec<RenderCommand> = Vec::new();
    commands.push(RenderCommand::Clear);
    assert(command_models(commands@) =~= seq![CommandModel::Clear] + as_commands(
        frame_draws(es.take(0), t, w),
    ));
    let mut i: usize = 0;
    while i < config.elements.len()
        invariant
            i <= config.elements.len(),
            es == config@.elements,
            es.len() == config.elements.len(),
            t == telemetry@,
            w == config.width,
            forall|k: int| 0 <= k < i ==> fits(#[trigger] es[k], t, w),
            command_models(commands@) == seq![CommandModel::Clear] + as_commands(
                frame_draws(es.take(i as int), t, w),
            ),
        decreases config.elements.len() - i,
    {
        let element = &config.elements[i];
        assert(es[i as int] == element@);
        match layout(element, telemetry, config.width) {
            None => {
                let m = String::from_str("layout out of range: ").concat(element.id.as_str());
                assert(first_unfit(config@.elements, telemetry@, config@.width, i as int));
                return Err(DisplayError::ConfigError(m));
            },
            Some(ops) => {
                proof {
                    assert(es.take(i + 1).drop_last() =~= es.take(i as int));
                    assert(as_commands(frame_draws(es.take(i + 1), t, w)) =~= as_commands(
                        frame_draws(es.take(i as int), t, w),
                    ) + as_commands(draw_models(ops@)));
                }
                append_draws(&mut commands, ops);
                assert(command_models(commands@) =~= seq![CommandModel::Clear] + as_commands(
                    frame_draws(es.take(i + 1), t, w),
                ));
            },
        }
        i += 1;
    }
    let ghost drawn = commands@;
    commands.push(RenderCommand::Flush);
    proof {
        assert(es.take(i as int) =~= es);
        assert(command_models(commands@) =~= command_models(drawn) + seq![CommandModel::Flush]);
    }
    Ok(commands)
}

/// What loading a configuration from a text gives: the error of the syntax
/// where the text is no document, else what decoding the document gives.
pub open spec fn loaded(text: Seq<char>) -> Result<DocumentModel, ErrorModel> {
    match parsed_json(text) {
        Ok(v) => decoded(v),
        Err(m) => Err(ErrorModel::JsonError(m@)),
    }
}

/// What loading a configuration gives from the outcome of reading its file:
/// the text of the file, or why it could not be read.
pub open spec fn loaded_from(source: Result<Seq<char>, Seq<char>>) -> Result<DocumentModel, ErrorModel> {
    match source {
        Ok(text) => loaded(text),
        Err(why) => Err(ErrorModel::IoError(why)),
    }
}

/// The outcome of reading a file as contracts see it.
pub open spec fn source_model(source: Result<&str, &str>) -> Result<Seq<char>, Seq<char>> {
    match source {
        Ok(text) => Ok(text@),
        Err(why) => Err(why@),
    }
}

/// The lookup of the host name as contracts see it.
pub open spec fn lookup_model(lookup: Option<&str>) -> Option<Seq<char>> {
    match lookup {
        Some(output) => Some(output@),
        None => None,
    }
}

/// The configuration a display starts with: the one loaded, or the built-in
/// layout for this host where none could be loaded.
pub open spec fn startup_document(
    source: Result<Seq<char>, Seq<char>>,
    lookup: Option<Seq<char>>,
) -> DocumentModel {
    match loaded_from(source) {
        Ok(d) => d,
        Err(_) => DocumentModel::SingleOrientation(default_layout(hostname_shown(lookup))),
    }
}

/// Where no configuration can be loaded, the display starts with the
/// built-in layout of two elements. Under any snapshot in which the host
/// name is short enough to be measured, its frame is complete: clear, the
/// host name centered in the 6x12 font at height 8, the greeting in the PC
/// Senior font at (16, 22), flush.
pub proof fn lemma_fallback_frame(
    source: Result<Seq<char>, Seq<char>>,
    lookup: Option<Seq<char>>,
    t: TelemetryModel,
)
    requires
        loaded_from(source) is Err,
        text_len(resolved(hostname_shown(lookup), t)) * 6 <= i32::MAX,
    ensures
        startup_document(source, lookup) == DocumentModel::SingleOrientation(
            default_layout(hostname_shown(lookup)),
        ),
        default_layout(hostname_shown(lookup)).elements.len() == 2,
        all_fit(default_layout(hostname_shown(lookup)).elements, t, 128),
        frame(default_layout(hostname_shown(lookup)), t) == seq![
            CommandModel::Clear,
            CommandModel::Draw(
                DrawModel {
                    text: resolved(hostname_shown(lookup), t),
                    font: FontStyle::Font6x12,
                    x: half(
                        128 - text_len(resolved(hostname_shown(lookup), t))
                            * 6,
                    ),
                    y: 8,
                },
            ),
            CommandModel::Draw(
                DrawModel { text: "Hello World!"@, font: FontStyle::PcSenior8, x: 16, y: 22 },
            ),
            CommandModel::Flush,
        ],
{
    let host = hostname_shown(lookup);
    let layout = default_layout(host);
    let es = layout.elements;
    lemma_greeting_is_literal(t);
    lemma_default_fonts();
    lemma_default_keyword();
    let first = es[0];
    let second = es[1];
    let host_text = resolved(host, t);
    let n = text_len(host_text) as int;
    assert(first.components.drop_last() =~= Seq::<ComponentModel>::empty());
    assert(second.components.drop_last() =~= Seq::<ComponentModel>::empty());
    reveal_with_fuel(element_width, 2);
    reveal_with_fuel(element_runs, 2);
    assert(element_width(first.components, t) == n * 6);
    assert(element_width(second.components, t) == 96);
    let runs1 = element_runs(first.components, t);
    let runs2 = element_runs(second.components, t);
    assert(runs1 =~= seq![Run { text: host_text, font: FontStyle::Font6x12 }]);
    assert(runs2 =~= seq![
        Run { text: "Hello World!"@, font: FontStyle::PcSenior8 },
    ]);
    assert(runs1.take(0) =~= Seq::<Run>::empty());
    assert(runs2.take(0) =~= Seq::<Run>::empty());
    let l1 = element_layout(first, t, 128);
    let l2 = element_layout(second, t, 128);
    assert(l1 =~= seq![
        DrawModel { text: host_text, font: FontStyle::Font6x12, x: half(128 - n * 6), y: 8 },
    ]);
    assert(l2 =~= seq![
        DrawModel { text: "Hello World!"@, font: FontStyle::PcSenior8, x: 16, y: 22 },
    ]);
    assert(fits(first, t, 128));
    assert(fits(second, t, 128));
    assert(es.drop_last() =~= seq![first]);
    assert(es.drop_last().drop_last() =~= Seq::<ElementModel>::empty());
    reveal_with_fuel(frame_draws, 3);
    assert(frame_draws(es, t, 128) =~= l1 + l2);
    assert(frame(layout, t) =~= seq![
        CommandModel::Clear,
        CommandModel::Draw(l1[0]),
        CommandModel::Draw(l2[0]),
        CommandModel::Flush,
    ]);
}

/// The greeting names no value of a snapshot, and is twelve bytes long.
proof fn lemma_greeting_is_literal(t: TelemetryModel)
    ensures
        resolved("Hello World!"@, t) == "Hello World!"@,
        text_len("Hello World!"@) == 12,
{
    reveal_strlit("Hello World!");
    reveal_strlit("interface_phys");
    reveal_strlit("interface_numvlan");
    reveal_strlit("ip_info.0");
    reveal_strlit("ip_octets(0)");
    reveal_strlit("ip_octets(1)");
    reveal_strlit("ip_octets(2)");
    reveal_strlit("ip_octets(3)");
    reveal_strlit("cpu_usage");
    reveal_strlit("cpu_temp");
    reveal_strlit("ram_usage");
    reveal_strlit("disk_usage");
    let g = "Hello World!"@;
    assert(g.len() == 12 && g[0] == 'H');
    assert("interface_phys"@.len() == 14);
    assert("interface_numvlan"@.len() == 17);
    assert("ip_info.0"@.len() == 9);
    assert("ip_octets(0)"@[0] == 'i');
    assert("ip_octets(1)"@[0] == 'i');
    assert("ip_octets(2)"@[0] == 'i');
    assert("ip_octets(3)"@[0] == 'i');
    assert("cpu_usage"@.len() == 9);
    assert("cpu_temp"@.len() == 8);
    assert("ram_usage"@.len() == 9);
    assert("disk_usage"@.len() == 10);
    assert(vstd::utf8::is_ascii_chars(g));
    lemma_ascii_text_len(g);
}

/// The fonts that the built-in layout names.
proof fn lemma_default_fonts()
    ensures
        FontStyle::spec_named("FONT_6X12"@) == FontStyle::Font6x12,
        FontStyle::spec_named("PCSENIOR8_STYLE"@) == FontStyle::PcSenior8,
{
    reveal_strlit("FONT_6X12");
    reveal_strlit("PCSENIOR8_STYLE");
    assert("FONT_6X12"@.len() == 9);
    assert("PCSENIOR8_STYLE"@.len() == 15);
}

/// The keyword that the built-in layout places its elements by.
proof fn lemma_default_keyword()
    ensures
        forall|w: int, e: int|
            #[trigger] origin_x(PositionModel::Text("center"@), w, e)
                == half(w - e),
{
}

/// A display with its configuration.
pub struct PoeDisplay {
    config: ConfigDocument,
    load_error: Option<DisplayError>,
}

impl View for PoeDisplay {
    type V = DocumentModel;

    closed spec fn view(&self) -> DocumentModel {
        self.config@
    }
}

impl PoeDisplay {
    /// Why the configuration of this display is the built-in one, if it is.
    pub closed spec fn spec_load_error(&self) -> Option<ErrorModel> {
        match self.load_error {
            Some(e) => Some(e@),
            None => None,
        }
    }

    /// Loads a configuration from the text of a document.
    pub fn load_config_from_text(text: &str) -> (r: Result<ConfigDocument, DisplayError>)
        ensures
            outcome_model(r) == loaded(text@),
    {
        match parse(text) {
            Ok(v) => decode_document(&v),
            Err(m) => Err(DisplayError::JsonError(m)),
        }
    }

    /// Loads a configuration from the outcome of reading its file: the text
    /// of the file, or why it could not be read.
    pub fn load_config_from_file(source: Result<&str, &str>) -> (r: Result<ConfigDocument, DisplayError>)
        ensures
            outcome_model(r) == loaded_from(source_model(source)),
    {
        match source {
            Ok(text) => Self::load_config_from_text(text),
            Err(why) => Err(DisplayError::IoError(String::from_str(why))),
        }
    }

    /// A display with the configuration loaded from `source`. Where none can
    /// be loaded the display gets the built-in layout, with the host name
    /// from `host_lookup`, and keeps the reason.
    pub fn new(source: Result<&str, &str>, host_lookup: Option<&str>) -> (display: PoeDisplay)
        ensures
            display@ == startup_document(source_model(source), lookup_model(host_lookup)),
            display.spec_load_error() == match loaded_from(source_model(source)) {
                Ok(_) => None,
                Err(e) => Some(e),
            },
    {
        match Self::load_config_from_file(source) {
            Ok(config) => PoeDisplay { config, load_error: None },
            Err(e) => PoeDisplay {
                config: ConfigDocument::SingleOrientation(
                    get_default_display_config(get_system_hostname(host_lookup)),
                ),
                load_error: Some(e),
            },
        }
    }

    /// A display that draws `config`.
    pub fn with_config(config: ConfigDocument) -> (display: PoeDisplay)
        ensures
            display@ == config@,
            display.spec_load_error() is None,
    {
        PoeDisplay { config, load_error: None }
    }

    /// Why the configuration of this display is the built-in one, if it is.
    pub fn load_error(&self) -> (e: Option<&DisplayError>)
        ensures
            self.spec_load_error() == match e {
                Some(e) => Some(e@),
                None => None,
            },
    {
        self.load_error.as_ref()
    }

    /// The configuration of this display.
    pub fn config(&self) -> (config: &ConfigDocument)
        ensures
            config@ == self@,
    {
        &self.config
    }

    /// The rotation to set the panel to for the orientation asked for.
    pub fn rotation(&self, display_orientation: &str) -> (r: Rotation)
        ensures
            r == self@.selected(display_orientation@).orientation.spec_rotation(),
    {
        self.config.select(display_orientation).orientation.to_display_rotation()
    }

    /// The commands that draw one frame under `telemetry`, from the layout
    /// that `display_orientation` selects: see [`render`].
    pub fn update_display(&self, telemetry: &Telemetry, display_orientation: &str) -> (r: Result<
        Vec<RenderCommand>,
        DisplayError,
    >)
        ensures
            match r {
                Ok(commands) => {
                    &&& all_fit(
                        self@.selected(display_orientation@).elements,
                        telemetry@,
                        self@.selected(display_orientation@).width,
                    )
                    &&& command_models(commands@) == frame(self@.selected(display_orientation@), telemetry@)
                },
                Err(e) => exists|i: int|
                    {
                        &&& #[trigger] first_unfit(
                            self@.selected(display_orientation@).elements,
                            telemetry@,
                            self@.selected(display_orientation@).width,
                            i,
                        )
                        &&& e@ == ErrorModel::ConfigError(
                            unfit_message(self@.selected(display_orientation@).elements[i].id),
                        )
                    },
            },
    {
        render(self.config.select(display_orientation), telemetry)
    }
}

} // verus!
