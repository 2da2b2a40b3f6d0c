//! The layout that is drawn when no configuration can be had.

use vstd::prelude::*;
use vstd::string::*;
use crate::config::{
    ComponentConfig, ComponentModel, DisplayConfig, ElementConfig, ElementModel, LayoutModel, Orientation,
    PlaceModel, PositionConfig, PositionModel, PositionValue, RunModel, ValueConfig,
};

verus! {

/// `text` without the white space at its start and at its end, as
/// `str::trim` of the standard library gives it.
pub uninterp spec fn trimmed(text: Seq<char>) -> Seq<char>;

/// `str::trim`: the slice of `text` that is left when the white space at both
/// ends is taken off.
#[verifier::external_body]
fn trim(text: &str) -> (r: &str)
    ensures
        r@ == trimmed(text@),
{
    text.trim()
}

/// The built-in layout for a host of the given name: on a 128x32 landscape
/// canvas, the host name centered in the 6x12 font at height 8, and a
/// greeting centered in the PC Senior font at height 22.
pub open spec fn default_layout(hostname: Seq<char>) -> LayoutModel {
    LayoutModel {
        orientation: Orientation::Landscape,
        width: 128,
        height: 32,
        elements: seq![
            ElementModel {
                id: "hostname"@,
                position: PlaceModel { x: PositionModel::Text("center"@), y: PositionModel::Number(8) },
                components: seq![
                    ComponentModel {
                        value: RunModel { text: hostname, font: "FONT_6X12"@ },
                        prefix: None,
                        suffix: None,
                    },
                ],
            },
            ElementModel {
                id: "hello_world"@,
                position: PlaceModel { x: PositionModel::Text("center"@), y: PositionModel::Number(22) },
                components: seq![
                    ComponentModel {
                        value: RunModel { text: "Hello World!"@, font: "PCSENIOR8_STYLE"@ },
                        prefix: None,
                        suffix: None,
                    },
                ],
            },
        ],
    }
}

/// The name to show for this host, from what looking it up gave: the output
/// of the lookup without the white space around it, or `RustBerry` where the
/// lookup failed.
pub open spec fn hostname_shown(lookup: Option<Seq<char>>) -> Seq<char> {
    match lookup {
        Some(output) => trimmed(output),
        None => "RustBerry"@,
    }
}

/// The name to show for this host: see [`hostname_shown`].
pub fn get_system_hostname(lookup: Option<&str>) -> (name: String)
    ensures
        name@ == hostname_shown(
            match lookup {
                Some(output) => Some(output@),
                None => None,
            },
        ),
{
    match lookup {
        Some(output) => String::from_str(trim(output)),
        None => String::from_str("RustBerry"),
    }
}

fn centered_line(id: &str, y: i32, text: String, font: &str) -> (element: ElementConfig)
    ensures
        element@ == (ElementModel {
            id: id@,
            position: PlaceModel { x: PositionModel::Text("center"@), y: PositionModel::Number(y as int) },
            components: seq![
                ComponentModel { value: RunModel { text: text@, font: font@ }, prefix: None, suffix: None },
            ],
        }),
{
    let mut components: Vec<ComponentConfig> = Vec::new();
    components.push(
        ComponentConfig {
            value: ValueConfig { text, font: String::from_str(font) },
            prefix: None,
            suffix: None,
        },
    );
    let element = ElementConfig {
        id: String::from_str(id),
        position: PositionConfig {
            x: PositionValue::Text(String::from_str("center")),
            y: PositionValue::Number(y),
        },
        components,
    };
    assert(element@.components =~= seq![
        ComponentModel { value: RunModel { text: text@, font: font@ }, prefix: None, suffix: None },
    ]);
    element
}

/// The built-in layout for a host of the given name: see [`default_layout`].
pub fn get_default_display_config(hostname: String) -> (config: DisplayConfig)
    ensures
        config@ == default_layout(hostname@),
{
    let mut elements: Vec<ElementConfig> = Vec::new();
    elements.push(centered_line("hostname", 8, hostname, "FONT_6X12"));
    elements.push(centered_line("hello_world", 22, String::from_str("Hello World!"), "PCSENIOR8_STYLE"));
    let config = DisplayConfig { orientation: Orientation::Landscape, width: 128, height: 32, elements };
    assert(config@.elements =~= default_layout(hostname@).elements);
    config
}

} // verus!
