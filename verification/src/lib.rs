//! Layout and text composition for a small monochrome status display.
//!
//! A configuration names the elements to draw; each element is a row of text
//! runs in fixed-pitch fonts. The library resolves the runs against a
//! telemetry snapshot, measures them, places them on the canvas and hands
//! back the ordered drawing commands of one frame.

pub mod config;
pub mod decode;
pub mod default_config;
pub mod display;
pub mod fan;
pub mod font;
pub mod interfaces;
pub mod json;
pub mod layout;
pub mod network;
pub mod telemetry;
pub mod text;
