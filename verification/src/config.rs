//! The configuration model: what is drawn, where, and in which font.

use vstd::prelude::*;
use crate::text::same_text;

verus! {

/// How the display is mounted.
#[derive(Clone, Copy, Debug, PartialEq, Eq, Structural)]
pub enum Orientation {
    Landscape,
    Portrait,
}

/// How far the panel turns the picture, clockwise.
#[derive(Clone, Copy, Debug, PartialEq, Eq, Structural)]
pub enum Rotation {
    Rotate0,
    Rotate90,
    Rotate180,
    Rotate270,
}

impl Orientation {
    /// The orientation that a name stands for, if it is one of the two names.
    pub open spec fn spec_named(name: Seq<char>) -> Option<Orientation> {
        if name == "landscape"@ {
            Some(Orientation::Landscape)
        } else if name == "portrait"@ {
            Some(Orientation::Portrait)
        } else {
            None
        }
    }

    /// The orientation that a request selects: landscape unless the request
    /// names portrait.
    pub open spec fn spec_requested(name: Seq<char>) -> Orientation {
        match Self::spec_named(name) {
            Some(o) => o,
            None => Orientation::Landscape,
        }
    }

    /// The rotation that goes with each orientation.
    pub open spec fn spec_rotation(self) -> Rotation {
        match self {
            Orientation::Landscape => Rotation::Rotate0,
            Orientation::Portrait => Rotation::Rotate90,
        }
    }

    /// The rotation to set the panel to: none for landscape, a quarter turn
    /// for portrait.
    pub fn to_display_rotation(&self) -> (r: Rotation)
        ensures
            r == self.spec_rotation(),
    {
        match self {
            Orientation::Portrait => Rotation::Rotate90,
            Orientation::Landscape => Rotation::Rotate0,
        }
    }

    /// Reads an orientation from its name, `landscape` or `portrait`.
    pub fn named(name: &str) -> (o: Option<Orientation>)
        ensures
            o == Self::spec_named(name@),
    {
        if same_text(name, "landscape") {
            Some(Orientation::Landscape)
        } else if same_text(name, "portrait") {
            Some(Orientation::Portrait)
        } else {
            None
        }
    }

    /// The orientation that a request selects; an unknown name selects
    /// landscape.
    pub fn requested(name: &str) -> (o: Orientation)
        ensures
            o == Self::spec_requested(name@),
    {
        match Self::named(name) {
            Some(o) => o,
            None => Orientation::Landscape,
        }
    }

    /// The name of this orientation in a configuration document.
    pub fn name(&self) -> (name: &'static str)
        ensures
            Self::spec_named(name@) == Some(*self),
    {
        proof {
            reveal_strlit("landscape");
            reveal_strlit("portrait");
            assert("landscape"@.len() == 9);
            assert("portrait"@.len() == 8);
        }
        match self {
            Orientation::Landscape => "landscape",
            Orientation::Portrait => "portrait",
        }
    }
}

/// The value run of a component: a token or literal text, and a font name.
#[derive(Clone, Debug, PartialEq, Eq)]
pub struct ValueConfig {
    pub text: String,
    pub font: String,
}

/// A prefix or suffix run of a component.
#[derive(Clone, Debug, PartialEq, Eq)]
pub struct PrefixSuffixConfig {
    pub text: String,
    pub font: String,
}

/// A run of text as contracts see it.
pub struct RunModel {
    pub text: Seq<char>,
    pub font: Seq<char>,
}

impl View for ValueConfig {
    type V = RunModel;

    open spec fn view(&self) -> RunModel {
        RunModel { text: self.text@, font: self.font@ }
    }
}

impl View for PrefixSuffixConfig {
    type V = RunModel;

    open spec fn view(&self) -> RunModel {
        RunModel { text: self.text@, font: self.font@ }
    }
}

/// One visual unit: a value with an optional prefix before it and an optional
/// suffix after it.
#[derive(Clone, Debug, PartialEq, Eq)]
pub struct ComponentConfig {
    pub value: ValueConfig,
    pub prefix: Option<PrefixSuffixConfig>,
    pub suffix: Option<PrefixSuffixConfig>,
}

/// A component as contracts see it.
pub struct ComponentModel {
    pub value: RunModel,
    pub prefix: Option<RunModel>,
    pub suffix: Option<RunModel>,
}

impl View for ComponentConfig {
    type V = ComponentModel;

    open spec fn view(&self) -> ComponentModel {
        ComponentModel {
            value: self.value@,
            prefix: match self.prefix {
                Some(p) => Some(p@),
                None => None,
            },
            suffix: match self.suffix {
                Some(s) => Some(s@),
                None => None,
            },
        }
    }
}

/// One coordinate of a position.
#[derive(Clone, Debug, PartialEq, Eq)]
pub enum PositionValue {
    /// A pixel coordinate.
    Number(i32),
    /// A keyword.
    Text(String),
    /// An alignment around a pixel coordinate.
    Relative { align: String, anchor: i32 },
}

/// A coordinate as contracts see it.
pub enum PositionModel {
    Number(int),
    Text(Seq<char>),
    Relative { align: Seq<char>, anchor: int },
}

impl View for PositionValue {
    type V = PositionModel;

    open spec fn view(&self) -> PositionModel {
        match self {
            PositionValue::Number(n) => PositionModel::Number(*n as int),
            PositionValue::Text(t) => PositionModel::Text(t@),
            PositionValue::Relative { align, anchor } => PositionModel::Relative {
                align: align@,
                anchor: *anchor as int,
            },
        }
    }
}

/// Where an element goes.
#[derive(Clone, Debug, PartialEq, Eq)]
pub struct PositionConfig {
    pub x: PositionValue,
    pub y: PositionValue,
}

/// A position as contracts see it.
pub struct PlaceModel {
    pub x: PositionModel,
    pub y: PositionModel,
}

impl View for PositionConfig {
    type V = PlaceModel;

    open spec fn view(&self) -> PlaceModel {
        PlaceModel { x: self.x@, y: self.y@ }
    }
}

/// A named row of components, drawn left to right in the order given.
#[derive(Clone, Debug, PartialEq, Eq)]
pub struct ElementConfig {
    pub id: String,
    pub position: PositionConfig,
    pub components: Vec<ComponentConfig>,
}

/// An element as contracts see it.
pub struct ElementModel {
    pub id: Seq<char>,
    pub position: PlaceModel,
    pub components: Seq<ComponentModel>,
}

impl View for ElementConfig {
    type V = ElementModel;

    open spec fn view(&self) -> ElementModel {
        ElementModel {
            id: self.id@,
            position: self.position@,
            components: self.components@.map_values(|c: ComponentConfig| c@),
        }
    }
}

/// The layout of one orientation: the canvas and the elements on it, in
/// drawing order.
#[derive(Clone, Debug, PartialEq, Eq)]
pub struct DisplayConfig {
    pub orientation: Orientation,
    pub width: i32,
    pub height: i32,
    pub elements: Vec<ElementConfig>,
}

/// A layout as contracts see it.
pub struct LayoutModel {
    pub orientation: Orientation,
    pub width: int,
    pub height: int,
    pub elements: Seq<ElementModel>,
}

impl View for DisplayConfig {
    type V = LayoutModel;

    open spec fn view(&self) -> LayoutModel {
        LayoutModel {
            orientation: self.orientation,
            width: self.width as int,
            height: self.height as int,
            elements: self.elements@.map_values(|e: ElementConfig| e@),
        }
    }
}

/// A whole configuration: one layout with its orientation, or one layout for
/// each orientation.
#[derive(Clone, Debug, PartialEq, Eq)]
pub enum ConfigDocument {
    SingleOrientation(DisplayConfig),
    DualOrientation { landscape: DisplayConfig, portrait: DisplayConfig },
}

/// A configuration as contracts see it.
pub enum DocumentModel {
    SingleOrientation(LayoutModel),
    DualOrientation { landscape: LayoutModel, portrait: LayoutModel },
}

impl View for ConfigDocument {
    type V = DocumentModel;

    open spec fn view(&self) -> DocumentModel {
        match self {
            ConfigDocument::SingleOrientation(c) => DocumentModel::SingleOrientation(c@),
            ConfigDocument::DualOrientation { landscape, portrait } => DocumentModel::DualOrientation {
                landscape: landscape@,
                portrait: portrait@,
            },
        }
    }
}

impl DocumentModel {
    /// The layout that a request for an orientation selects. A configuration
    /// with one layout always gives that one; one with two gives the portrait
    /// layout where portrait is asked for and the landscape layout otherwise.
    pub open spec fn selected(self, requested: Seq<char>) -> LayoutModel {
        match self {
            DocumentModel::SingleOrientation(c) => c,
            DocumentModel::DualOrientation { landscape, portrait } => match Orientation::spec_requested(
                requested,
            ) {
                Orientation::Landscape => landscape,
                Orientation::Portrait => portrait,
            },
        }
    }
}

impl ConfigDocument {
    /// The layout to draw for the orientation asked for; an unknown name asks
    /// for landscape.
    pub fn select(&self, requested: &str) -> (layout: &DisplayConfig)
        ensures
            layout@ == self@.selected(requested@),
    {
        match self {
            ConfigDocument::SingleOrientation(c) => c,
            ConfigDocument::DualOrientation { landscape, portrait } => match Orientation::requested(
                requested,
            ) {
                Orientation::Landscape => landscape,
                Orientation::Portrait => portrait,
            },
        }
    }
}

} // verus!
