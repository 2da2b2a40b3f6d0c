//! From a configuration document to the configuration model.
//!
//! A document has one of two shapes. With a member `orientations` it holds
//! one layout for each orientation, under `landscape` and `portrait`.
//! Without it, it is one layout, with its orientation under `orientation`.
//! A layout holds `width`, `height` and `elements`; members that the schema
//! does not name are passed over.

use vstd::prelude::*;
use vstd::string::*;
use crate::config::{
    ComponentConfig, ComponentModel, ConfigDocument, DisplayConfig, DocumentModel, ElementConfig,
    ElementModel, LayoutModel, Orientation, PlaceModel, PositionConfig, PositionModel, PositionValue,
    PrefixSuffixConfig, RunModel, ValueConfig,
};
use crate::display::{DisplayError, ErrorModel};
use crate::json::JsonValue;
use crate::text::same_text;

verus! {

/// The value of the first member with the given key.
pub open spec fn lookup(members: Seq<(String, JsonValue)>, key: Seq<char>) -> Option<JsonValue>
    decreases members.len(),
{
    if members.len() == 0 {
        None
    } else if members[0].0@ == key {
        Some(members[0].1)
    } else {
        lookup(members.drop_first(), key)
    }
}

/// The member of an object under the given key; nothing but an object has
/// members.
pub open spec fn member(v: JsonValue, key: Seq<char>) -> Option<JsonValue> {
    match v {
        JsonValue::Object(members) => lookup(members@, key),
        _ => None,
    }
}

/// The text that a document is, if it is one.
pub open spec fn text_model(v: JsonValue) -> Option<Seq<char>> {
    match v {
        JsonValue::Text(s) => Some(s@),
        _ => None,
    }
}

/// The pixel count that a document is, if it is a whole number that an `i32`
/// holds.
pub open spec fn pixel_model(v: JsonValue) -> Option<int> {
    match v {
        JsonValue::Number(Some(n)) => if i32::MIN <= n <= i32::MAX {
            Some(n as int)
        } else {
            None
        },
        _ => None,
    }
}

/// The items of a list, if the document is one.
pub open spec fn items_model(v: JsonValue) -> Option<Seq<JsonValue>> {
    match v {
        JsonValue::List(items) => Some(items@),
        _ => None,
    }
}

/// The text under `key`, where the document has a member there and it is a
/// text.
pub open spec fn text_member(v: JsonValue, key: Seq<char>) -> Option<Seq<char>> {
    match member(v, key) {
        Some(m) => text_model(m),
        None => None,
    }
}

/// The pixel count under `key`.
pub open spec fn pixel_member(v: JsonValue, key: Seq<char>) -> Option<int> {
    match member(v, key) {
        Some(m) => pixel_model(m),
        None => None,
    }
}

/// The items of the list under `key`.
pub open spec fn items_member(v: JsonValue, key: Seq<char>) -> Option<Seq<JsonValue>> {
    match member(v, key) {
        Some(m) => items_model(m),
        None => None,
    }
}

/// A run: an object with the texts `text` and `font`.
pub open spec fn run_model(v: JsonValue) -> Option<RunModel> {
    match (text_member(v, "text"@), text_member(v, "font"@)) {
        (Some(text), Some(font)) => Some(RunModel { text, font }),
        _ => None,
    }
}

/// A prefix or suffix: absent where the member is missing or null, else a
/// run. The outer `None` says that the member is there and is no run.
pub open spec fn optional_run_model(m: Option<JsonValue>) -> Option<Option<RunModel>> {
    match m {
        None => Some(None),
        Some(JsonValue::Null) => Some(None),
        Some(v) => match run_model(v) {
            Some(r) => Some(Some(r)),
            None => None,
        },
    }
}

/// A component: an object with the run `value` and, where it has them, the
/// runs `prefix` and `suffix`.
pub open spec fn component_model(v: JsonValue) -> Option<ComponentModel> {
    match member(v, "value"@) {
        Some(value) => match (
            run_model(value),
            optional_run_model(member(v, "prefix"@)),
            optional_run_model(member(v, "suffix"@)),
        ) {
            (Some(value), Some(prefix), Some(suffix)) => Some(ComponentModel { value, prefix, suffix }),
            _ => None,
        },
        None => None,
    }
}

/// A coordinate: a pixel count, a text, or an object with the text `align`
/// and the pixel count `anchor`.
pub open spec fn position_model(v: JsonValue) -> Option<PositionModel> {
    match v {
        JsonValue::Number(_) => match pixel_model(v) {
            Some(n) => Some(PositionModel::Number(n)),
            None => None,
        },
        JsonValue::Text(s) => Some(PositionModel::Text(s@)),
        _ => match (text_member(v, "align"@), pixel_member(v, "anchor"@)) {
            (Some(align), Some(anchor)) => Some(PositionModel::Relative { align, anchor }),
            _ => None,
        },
    }
}

/// A position: an object with the coordinates `x` and `y`.
pub open spec fn place_model(v: JsonValue) -> Option<PlaceModel> {
    match (member(v, "x"@), member(v, "y"@)) {
        (Some(x), Some(y)) => match (position_model(x), position_model(y)) {
            (Some(x), Some(y)) => Some(PlaceModel { x, y }),
            _ => None,
        },
        _ => None,
    }
}

/// The components that a list of documents is, if every item is one.
pub open spec fn components_model(items: Seq<JsonValue>) -> Option<Seq<ComponentModel>> {
    if forall|i: int| 0 <= i < items.len() ==> (#[trigger] component_model(items[i])) is Some {
        Some(Seq::new(items.len(), |i: int| component_model(items[i])->0))
    } else {
        None
    }
}

/// An element: an object with the text `id`, the position `position` and the
/// list of components `components`.
pub open spec fn element_model(v: JsonValue) -> Option<ElementModel> {
    match (text_member(v, "id"@), member(v, "position"@), items_member(v, "components"@)) {
        (Some(id), Some(position), Some(items)) => match (place_model(position), components_model(items)) {
            (Some(position), Some(components)) => Some(ElementModel { id, position, components }),
            _ => None,
        },
        _ => None,
    }
}

/// The elements that a list of documents is, if every item is one.
pub open spec fn elements_model(items: Seq<JsonValue>) -> Option<Seq<ElementModel>> {
    if forall|i: int| 0 <= i < items.len() ==> (#[trigger] element_model(items[i])) is Some {
        Some(Seq::new(items.len(), |i: int| element_model(items[i])->0))
    } else {
        None
    }
}

/// A layout for the given orientation: an object with the pixel counts
/// `width` and `height` and the list of elements `elements`.
pub open spec fn layout_model(v: JsonValue, orientation: Orientation) -> Option<LayoutModel> {
    match (pixel_member(v, "width"@), pixel_member(v, "height"@), items_member(v, "elements"@)) {
        (Some(width), Some(height), Some(items)) => match elements_model(items) {
            Some(elements) => Some(LayoutModel { orientation, width, height, elements }),
            None => None,
        },
        _ => None,
    }
}

/// The orientation that a single layout names under `orientation`.
pub open spec fn orientation_model(v: JsonValue) -> Option<Orientation> {
    match text_member(v, "orientation"@) {
        Some(name) => Orientation::spec_named(name),
        None => None,
    }
}

/// The configuration that a document is, if it is one of either shape.
pub open spec fn document_model(v: JsonValue) -> Option<DocumentModel> {
    match member(v, "orientations"@) {
        Some(both) => match (member(both, "landscape"@), member(both, "portrait"@)) {
            (Some(l), Some(p)) => match (
                layout_model(l, Orientation::Landscape),
                layout_model(p, Orientation::Portrait),
            ) {
                (Some(landscape), Some(portrait)) => Some(
                    DocumentModel::DualOrientation { landscape, portrait },
                ),
                _ => None,
            },
            _ => None,
        },
        None => match orientation_model(v) {
            Some(orientation) => match layout_model(v, orientation) {
                Some(layout) => Some(DocumentModel::SingleOrientation(layout)),
                None => None,
            },
            None => None,
        },
    }
}

/// Whether a document of the single shape names an orientation that is
/// neither landscape nor portrait.
pub open spec fn names_unknown_orientation(v: JsonValue) -> bool {
    &&& member(v, "orientations"@) is None
    &&& text_member(v, "orientation"@) is Some
    &&& orientation_model(v) is None
}

/// A configuration is of the dual shape exactly where its document has the
/// member `orientations`. Its layouts are then the ones that the document
/// holds under `landscape` and `portrait`; a configuration of the single
/// shape is the layout that the document itself is, under the orientation
/// that it names.
pub proof fn lemma_document_shapes(v: JsonValue)
    requires
        document_model(v) is Some,
    ensures
        member(v, "orientations"@) is Some <==> document_model(v)->0 is DualOrientation,
        member(v, "orientations"@) is Some ==> {
            let both = member(v, "orientations"@)->0;
            &&& member(both, "landscape"@) is Some
            &&& member(both, "portrait"@) is Some
            &&& Some(document_model(v)->0->landscape) == layout_model(
                member(both, "landscape"@)->0,
                Orientation::Landscape,
            )
            &&& Some(document_model(v)->0->portrait) == layout_model(
                member(both, "portrait"@)->0,
                Orientation::Portrait,
            )
        },
        member(v, "orientations"@) is None ==> {
            &&& orientation_model(v) is Some
            &&& Some(document_model(v)->0->SingleOrientation_0) == layout_model(v, orientation_model(v)->0)
            &&& document_model(v)->0->SingleOrientation_0.orientation == orientation_model(v)->0
        },
{
}

/// A layout decoded from a document matches it item by item: it has as many
/// elements as the document lists, element `i` has the id and as many
/// components as item `i` lists, the value of its component `j` has the text
/// and the font name that the document holds there, a prefix or suffix is
/// there exactly where the document holds one that is not null, and each
/// coordinate is a number, a text or an alignment as the document has it.
pub proof fn lemma_layout_matches_document(v: JsonValue, orientation: Orientation, i: int, j: int)
    requires
        layout_model(v, orientation) is Some,
        0 <= i < items_member(v, "elements"@)->0.len(),
        0 <= j < items_member(items_member(v, "elements"@)->0[i], "components"@)->0.len(),
    ensures
        ({
            let layout = layout_model(v, orientation)->0;
            let items = items_member(v, "elements"@)->0;
            let components = items_member(items[i], "components"@)->0;
            let c = components[j];
            let position = member(items[i], "position"@)->0;
            let x = member(position, "x"@)->0;
            let y = member(position, "y"@)->0;
            let element = layout.elements[i];
            &&& layout.orientation == orientation
            &&& Some(layout.width) == pixel_member(v, "width"@)
            &&& Some(layout.height) == pixel_member(v, "height"@)
            &&& layout.elements.len() == items.len()
            &&& Some(element.id) == text_member(items[i], "id"@)
            &&& element.components.len() == components.len()
            &&& Some(element.components[j].value.text) == text_member(member(c, "value"@)->0, "text"@)
            &&& Some(element.components[j].value.font) == text_member(member(c, "value"@)->0, "font"@)
            &&& Some(element.components[j].prefix) == optional_run_model(member(c, "prefix"@))
            &&& Some(element.components[j].suffix) == optional_run_model(member(c, "suffix"@))
            &&& element.position.x is Number <==> x is Number
            &&& element.position.x is Text <==> x is Text
            &&& element.position.x is Relative <==> x is Object
            &&& element.position.y is Number <==> y is Number
            &&& element.position.y is Text <==> y is Text
            &&& element.position.y is Relative <==> y is Object
            &&& Some(element.position.x) == position_model(x)
            &&& Some(element.position.y) == position_model(y)
        }),
{
    let items = items_member(v, "elements"@)->0;
    assert(element_model(items[i]) is Some);
    let components = items_member(items[i], "components"@)->0;
    assert(component_model(components[j]) is Some);
}

fn find_member<'a>(v: &'a JsonValue, key: &str) -> (r: Option<&'a JsonValue>)
    ensures
        match r {
            Some(m) => member(*v, key@) == Some(*m),
            None => member(*v, key@) is None,
        },
{
    match v {
        JsonValue::Object(members) => {
            let mut i: usize = 0;
            assert(members@.skip(0) =~= members@);
            while i < members.len()
                invariant
                    i <= members.len(),
                    member(*v, key@) == lookup(members@, key@),
                    lookup(members@, key@) == lookup(members@.skip(i as int), key@),
                decreases members.len() - i,
            {
                assert(members@.skip(i as int)[0] == members@[i as int]);
                if same_text(members[i].0.as_str(), key) {
                    return Some(&members[i].1);
                }
                assert(members@.skip(i as int).drop_first() =~= members@.skip(i + 1));
                i += 1;
            }
            None
        },
        _ => None,
    }
}

fn find_text<'a>(v: &'a JsonValue, key: &str) -> (r: Option<&'a String>)
    ensures
        match r {
            Some(s) => text_member(*v, key@) == Some(s@),
            None => text_member(*v, key@) is None,
        },
{
    match find_member(v, key) {
        Some(JsonValue::Text(s)) => Some(s),
        _ => None,
    }
}

fn pixel_of(v: &JsonValue) -> (r: Option<i32>)
    ensures
        match r {
            Some(n) => pixel_model(*v) == Some(n as int),
            None => pixel_model(*v) is None,
        },
{
    match v {
        JsonValue::Number(Some(n)) => {
            if -0x8000_0000 <= *n && *n <= 0x7fff_ffff {
                Some(*n as i32)
            } else {
                None
            }
        },
        _ => None,
    }
}

fn find_pixel(v: &JsonValue, key: &str) -> (r: Option<i32>)
    ensures
        match r {
            Some(n) => pixel_member(*v, key@) == Some(n as int),
            None => pixel_member(*v, key@) is None,
        },
{
    match find_member(v, key) {
        Some(m) => pixel_of(m),
        None => None,
    }
}

fn find_items<'a>(v: &'a JsonValue, key: &str) -> (r: Option<&'a Vec<JsonValue>>)
    ensures
        match r {
            Some(items) => items_member(*v, key@) == Some(items@),
            None => items_member(*v, key@) is None,
        },
{
    match find_member(v, key) {
        Some(JsonValue::List(items)) => Some(items),
        _ => None,
    }
}

/// Whether `r` is what decoding gives where the model is `m`.
pub open spec fn decodes<T: View>(r: Option<T>, m: Option<T::V>) -> bool {
    match r {
        Some(c) => m == Some(c@),
        None => m is None,
    }
}

/// The document behind a reference that may be missing.
pub open spec fn referent(m: Option<&JsonValue>) -> Option<JsonValue> {
    match m {
        Some(v) => Some(*v),
        None => None,
    }
}

fn decode_value(v: &JsonValue) -> (r: Option<ValueConfig>)
    ensures
        decodes(r, run_model(*v)),
{
    match (find_text(v, "text"), find_text(v, "font")) {
        (Some(text), Some(font)) => Some(ValueConfig { text: text.clone(), font: font.clone() }),
        _ => None,
    }
}

fn decode_optional_run(m: Option<&JsonValue>) -> (r: Option<Option<PrefixSuffixConfig>>)
    ensures
        match r {
            Some(Some(run)) => optional_run_model(referent(m)) == Some(Some(run@)),
            Some(None) => optional_run_model(referent(m)) == Some(None::<RunModel>),
            None => optional_run_model(referent(m)) is None,
        },
{
    match m {
        None => Some(None),
        Some(JsonValue::Null) => Some(None),
        Some(v) => match (find_text(v, "text"), find_text(v, "font")) {
            (Some(text), Some(font)) => Some(
                Some(PrefixSuffixConfig { text: text.clone(), font: font.clone() }),
            ),
            _ => None,
        },
    }
}

fn decode_component(v: &JsonValue) -> (r: Option<ComponentConfig>)
    ensures
        decodes(r, component_model(*v)),
{
    let value = match find_member(v, "value") {
        Some(m) => match decode_value(m) {
            Some(value) => value,
            None => {
                return None;
            },
        },
        None => {
            return None;
        },
    };
    let prefix = match decode_optional_run(find_member(v, "prefix")) {
        Some(prefix) => prefix,
        None => {
            return None;
        },
    };
    let suffix = match decode_optional_run(find_member(v, "suffix")) {
        Some(suffix) => suffix,
        None => {
            return None;
        },
    };
    Some(ComponentConfig { value, prefix, suffix })
}

fn decode_position(v: &JsonValue) -> (r: Option<PositionValue>)
    ensures
        decodes(r, position_model(*v)),
{
    match v {
        JsonValue::Number(_) => match pixel_of(v) {
            Some(n) => Some(PositionValue::Number(n)),
            None => None,
        },
        JsonValue::Text(s) => Some(PositionValue::Text(s.clone())),
        _ => match (find_text(v, "align"), find_pixel(v, "anchor")) {
            (Some(align), Some(anchor)) => Some(PositionValue::Relative { align: align.clone(), anchor }),
            _ => None,
        },
    }
}

fn decode_place(v: &JsonValue) -> (r: Option<PositionConfig>)
    ensures
        decodes(r, place_model(*v)),
{
    match (find_member(v, "x"), find_member(v, "y")) {
        (Some(x), Some(y)) => match (decode_position(x), decode_position(y)) {
            (Some(x), Some(y)) => Some(PositionConfig { x, y }),
            _ => None,
        },
        _ => None,
    }
}

fn decode_components(items: &Vec<JsonValue>) -> (r: Option<Vec<ComponentConfig>>)
    ensures
        match r {
            Some(cs) => components_model(items@) == Some(cs@.map_values(|c: ComponentConfig| c@)),
            None => components_model(items@) is None,
        },
{
    let mut out: Vec<ComponentConfig> = Vec::new();
    let mut i: usize = 0;
    while i < items.len()
        invariant
            i <= items.len(),
            out.len() == i,
            forall|k: int| 0 <= k < i ==> #[trigger] component_model(items@[k]) == Some(out@[k]@),
        decreases items.len() - i,
    {
        match decode_component(&items[i]) {
            Some(c) => {
                out.push(c);
            },
            None => {
                return None;
            },
        }
        i += 1;
    }
    proof {
        assert(components_model(items@)->0 =~= out@.map_values(|c: ComponentConfig| c@));
    }
    Some(out)
}

fn decode_element(v: &JsonValue) -> (r: Option<ElementConfig>)
    ensures
        decodes(r, element_model(*v)),
{
    match (find_text(v, "id"), find_member(v, "position"), find_items(v, "components")) {
        (Some(id), Some(position), Some(items)) => match (decode_place(position), decode_components(items)) {
            (Some(position), Some(components)) => Some(ElementConfig { id: id.clone(), position, components }),
            _ => None,
        },
        _ => None,
    }
}

fn decode_elements(items: &Vec<JsonValue>) -> (r: Option<Vec<ElementConfig>>)
    ensures
        match r {
            Some(es) => elements_model(items@) == Some(es@.map_values(|e: ElementConfig| e@)),
            None => elements_model(items@) is None,
        },
{
    let mut out: Vec<ElementConfig> = Vec::new();
    let mut i: usize = 0;
    while i < items.len()
        invariant
            i <= items.len(),
            out.len() == i,
            forall|k: int| 0 <= k < i ==> #[trigger] element_model(items@[k]) == Some(out@[k]@),
        decreases items.len() - i,
    {
        match decode_element(&items[i]) {
            Some(e) => {
                out.push(e);
            },
            None => {
                return None;
            },
        }
        i += 1;
    }
    proof {
        assert(elements_model(items@)->0 =~= out@.map_values(|e: ElementConfig| e@));
    }
    Some(out)
}

fn decode_layout(v: &JsonValue, orientation: Orientation) -> (r: Option<DisplayConfig>)
    ensures
        decodes(r, layout_model(*v, orientation)),
{
    match (find_pixel(v, "width"), find_pixel(v, "height"), find_items(v, "elements")) {
        (Some(width), Some(height), Some(items)) => match decode_elements(items) {
            Some(elements) => Some(DisplayConfig { orientation, width, height, elements }),
            None => None,
        },
        _ => None,
    }
}

/// What an error says of a document that is of neither shape.
pub open spec fn schema_mismatch() -> Seq<char> {
    "document does not match the configuration schema"@
}

/// The model of the outcome of loading a configuration.
pub open spec fn outcome_model(r: Result<ConfigDocument, DisplayError>) -> Result<DocumentModel, ErrorModel> {
    match r {
        Ok(d) => Ok(d@),
        Err(e) => Err(e@),
    }
}

/// What decoding a document gives: its configuration where it is of either
/// shape; else the error that its orientation is unknown, where it names one
/// that is; else the error that it does not match the schema.
pub open spec fn decoded(v: JsonValue) -> Result<DocumentModel, ErrorModel> {
    match document_model(v) {
        Some(d) => Ok(d),
        None => if names_unknown_orientation(v) {
            Err(ErrorModel::InvalidOrientation)
        } else {
            Err(ErrorModel::ConfigError(schema_mismatch()))
        },
    }
}

fn mismatch() -> (e: DisplayError)
    ensures
        e@ == ErrorModel::ConfigError(schema_mismatch()),
{
    DisplayError::ConfigError(String::from_str("document does not match the configuration schema"))
}

/// Decodes a configuration document of either shape: see [`decoded`].
pub fn decode_document(v: &JsonValue) -> (r: Result<ConfigDocument, DisplayError>)
    ensures
        outcome_model(r) == decoded(*v),
{
    match find_member(v, "orientations") {
        Some(both) => match (find_member(both, "landscape"), find_member(both, "portrait")) {
            (Some(l), Some(p)) => match (
                decode_layout(l, Orientation::Landscape),
                decode_layout(p, Orientation::Portrait),
            ) {
                (Some(landscape), Some(portrait)) => Ok(
                    ConfigDocument::DualOrientation { landscape, portrait },
                ),
                _ => Err(mismatch()),
            },
            _ => Err(mismatch()),
        },
        None => match find_text(v, "orientation") {
            Some(name) => match Orientation::named(name.as_str()) {
                Some(orientation) => match decode_layout(v, orientation) {
                    Some(layout) => Ok(ConfigDocument::SingleOrientation(layout)),
                    None => Err(mismatch()),
                },
                None => Err(DisplayError::InvalidOrientation),
            },
            None => Err(mismatch()),
        },
    }
}

} // verus!
