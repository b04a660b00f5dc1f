//! A library for generating SVG status badges.
//!
//! A badge is a small image with an optional label panel on the left, a
//! message panel on the right, and an optional logo.  The library computes the
//! exact pixel geometry of the badge (panel widths, text anchors, logo
//! placement) from a font metrics table, chooses legible text colours from the
//! background colour, and serialises the result as a compact, escaped XML
//! document.
//!
//! All geometric quantities are measured in tenths of a font unit and held in
//! integers, so every width is exact and every render of the same
//! configuration is byte-identical.  Numeric attributes are written in the
//! shortest exact decimal form (`20`, `37.8`).

use vstd::prelude::*;

mod badge;
mod colour;
mod font;
mod text;
mod traits;
mod xml;

pub use badge::Badge;
pub use badge::Builder as BadgeBuilder;
pub use badge::colours_for_background;
pub use badge::preferred_width;
pub use colour::Colour;
pub use colour::scale8;
pub use font::is_control_char;
pub use font::measure;
pub use traits::IteratorExt;
pub use traits::Render;
pub use xml::Attribute;
pub use xml::Content;
pub use xml::Element;
pub use xml::ElementList;
pub use xml::escape_xml;

verus! {

/// Font stack written on the foreground group of every badge.
pub const FONT_FAMILY: &'static str = "Verdana,Geneva,DejaVu Sans,sans-serif";

/// Text is laid out at ten times its displayed size and scaled back down,
/// so glyph positions can be expressed with one decimal of precision.
pub const FONT_SCALE_UP_FACTOR: i64 = 10;

/// Transform that undoes [`FONT_SCALE_UP_FACTOR`] on a text element.
pub const FONT_SCALE_DOWN_VALUE: &'static str = "scale(.1)";

/// A background whose brightness is at or below this bound counts as dark
/// and gets light text (the bound is inclusive).
pub const BRIGHTNESS_THRESHOLD: u8 = 176;

/// Height of the badge, in tenths of a unit.
pub const HEIGHT: u64 = 200;

/// Extra vertical offset of the text baselines, in tenths of a unit.
pub const VERTICAL_MARGIN: i64 = 0;

/// Whether text is drawn with a low-opacity shadow one unit below it.
pub const SHADOW: bool = true;

/// Height of an embedded logo, in tenths of a unit.
pub const LOGO_HEIGHT: u64 = 140;

} // verus!
