//! The badge layout engine: from an immutable configuration to the exact
//! geometry of the badge and the XML document tree whose rendering is the
//! final SVG string.
//!
//! All widths, margins and coordinates are held in tenths of a unit, so
//! every formula below is exact integer arithmetic.

use vstd::prelude::*;
use vstd::string::StringExecFns;

use crate::BRIGHTNESS_THRESHOLD;
use crate::FONT_SCALE_DOWN_VALUE;
use crate::FONT_FAMILY;
use crate::HEIGHT;
use crate::LOGO_HEIGHT;
use crate::SHADOW;
use crate::VERTICAL_MARGIN;
use crate::colour::Colour;
use crate::colour::brightness_spec;
use crate::colour::colour_hex;
use crate::font::MAX_TEXT_LEN;
use crate::font::lemma_measure_bound;
use crate::font::measure;
use crate::font::measure_spec;
use crate::traits::Render;
use crate::xml::Content;
use crate::xml::ElemModel;
use crate::xml::Element;
use crate::xml::ElementList;
use crate::xml::Node;
use crate::xml::am;
use crate::xml::ams;
use crate::xml::amt;
use crate::xml::content_model;
use crate::xml::content_models;
use crate::xml::elem_model;
use crate::xml::lemma_content_models_index;
use crate::xml::rendered_elem;

verus! {

/// Horizontal padding between panel edges and text, in tenths of a unit.
pub const HORIZ_PADDING: u64 = 50;

/// Largest explicit logo width a configuration may carry, in tenths of a
/// unit; it keeps every derived coordinate inside 64 bits.
pub const MAX_LOGO_WIDTH: u64 = 0x4000_0000;

/// No measured text is wider than this many tenths of a unit (the longest
/// accepted text at the widest advance), and no panel is wider than twice
/// this.
pub const WIDTH_BOUND: u64 = 0x40_0000_0000;

/// The pair of foreground colours for text standing on the given
/// background: a text colour and a shadow colour.  A dark background (at or
/// below the brightness bound, inclusively) gets white text with a
/// near-black shadow; a light background gets charcoal text with a light
/// grey shadow.
pub open spec fn spec_colours_for_background(colour: Colour) -> (Colour, Colour) {
    if brightness_spec(colour) <= BRIGHTNESS_THRESHOLD {
        (Colour { r: 255, g: 255, b: 255 }, Colour { r: 1, g: 1, b: 1 })
    } else {
        (Colour { r: 51, g: 51, b: 51 }, Colour { r: 204, g: 204, b: 204 })
    }
}

/// Chooses legible text and shadow colours for the given background
/// colour; every colour maps to exactly one of the two fixed pairs, and
/// the brightness bound belongs to the dark side.
pub fn colours_for_background(colour: Colour) -> (r: (Colour, Colour))
    ensures
        r == spec_colours_for_background(colour),
{
    if colour.brightness() <= BRIGHTNESS_THRESHOLD {
        (Colour::from_colour_code(0xff_ff_ff), Colour::from_colour_code(0x01_01_01))
    } else {
        (Colour::from_colour_code(0x33_33_33), Colour::from_colour_code(0xcc_cc_cc))
    }
}

/// A measured width bumped to the next odd integer when it is an exact
/// even integer (a multiple of twenty tenths); any other width passes
/// through unchanged.
pub open spec fn round_up_to_odd_spec(val: int) -> int {
    if val % 20 == 0 {
        val + 10
    } else {
        val
    }
}

/// Bumps an even integer width to the next odd integer, leaving every
/// other width unchanged (widths are in tenths of a unit, so an even
/// integer is a multiple of twenty).
fn round_up_to_odd(val: u64) -> (r: u64)
    requires
        val <= WIDTH_BOUND,
    ensures
        r as int == round_up_to_odd_spec(val as int),
{
    if val % 20 == 0 {
        val + 10
    } else {
        val
    }
}

/// The width a text takes on a badge: nothing at all for an empty text,
/// and otherwise its measured width, bumped to the next odd integer when
/// it is an exact even integer.
pub open spec fn preferred_width_spec(s: Seq<char>) -> int {
    if s.len() == 0 {
        0
    } else {
        round_up_to_odd_spec(measure_spec(s))
    }
}

/// The width the given text takes on a badge, in tenths of a unit.
pub fn preferred_width(text: &str) -> (r: u64)
    requires
        text@.len() <= MAX_TEXT_LEN,
    ensures
        r as int == preferred_width_spec(text@),
        r <= WIDTH_BOUND,
{
    if text.is_empty() {
        return 0;
    }
    let m = measure(text);
    proof {
        lemma_measure_bound(text@);
    }
    round_up_to_odd(m)
}

/// A badge configuration: immutable once built, consumed by a single
/// render call.
#[derive(Debug, Clone)]
pub struct Badge {
    pub label_colour: Colour,
    pub colour: Colour,
    pub label: Option<String>,
    pub message: String,
    pub logo: Option<String>,
    pub logo_width: Option<u64>,
}

/// A builder for a [`Badge`]: the message defaults to the empty text, the
/// colours to a fixed green and a fixed grey, and everything else to
/// absent.
#[derive(Debug, Clone)]
pub struct Builder {
    pub label_colour: Option<Colour>,
    pub colour: Option<Colour>,
    pub label: Option<String>,
    pub message: String,
    pub logo: Option<String>,
    pub logo_width: Option<u64>,
}

impl Badge {
    /// A configuration the layout engine accepts: texts no longer than the
    /// measurer takes, and an explicit logo width inside its bound.
    pub open spec fn wf(self) -> bool {
        &&& (self.label matches Some(l) ==> l@.len() <= MAX_TEXT_LEN)
        &&& self.message@.len() <= MAX_TEXT_LEN
        &&& (self.logo_width matches Some(w) ==> w <= MAX_LOGO_WIDTH)
    }

    /// Whether a logo is present and its reference non-empty.
    pub open spec fn spec_has_logo(self) -> bool {
        self.logo matches Some(l) && l@.len() > 0
    }

    /// Whether a label is present and non-empty.
    pub open spec fn spec_has_label(self) -> bool {
        self.label matches Some(l) && l@.len() > 0
    }

    /// The label text, or the empty text when there is none.
    pub open spec fn spec_label_text(self) -> Seq<char> {
        match self.label {
            Some(l) => l@,
            None => Seq::empty(),
        }
    }

    /// The width reserved for the logo: the explicit width when one was
    /// given, the default logo width when a logo is present, and nothing
    /// otherwise.
    pub open spec fn spec_logo_width(self) -> int {
        match self.logo_width {
            Some(w) => w as int,
            None => if self.spec_has_logo() {
                140
            } else {
                0
            },
        }
    }

    /// The gap between logo and label, present only when both are.
    pub open spec fn spec_logo_padding(self) -> int {
        if self.spec_has_label() && self.spec_has_logo() {
            30
        } else {
            0
        }
    }

    /// The background colour of the left panel: the label colour whenever
    /// a label or a logo gives the left panel a reason to exist, else the
    /// main colour, so a bare message badge is uniformly coloured.
    pub open spec fn spec_label_colour(self) -> Colour {
        if self.spec_has_label() || self.spec_has_logo() {
            self.label_colour
        } else {
            self.colour
        }
    }

    /// The text exposed to assistive technology: the message alone when
    /// there is no label, else the label and the message joined by a
    /// colon.
    pub open spec fn spec_accessible_text(self) -> Seq<char> {
        match self.label {
            Some(l) => l@ + ": "@ + self.message@,
            None => self.message@,
        }
    }

    /// The horizontal margin before the label text.
    pub open spec fn spec_label_margin(self) -> int {
        self.spec_logo_width() + self.spec_logo_padding() + 10
    }

    /// The width the label text takes.
    pub open spec fn spec_label_width(self) -> int {
        preferred_width_spec(self.spec_label_text())
    }

    /// The width of the left panel: padding on both sides of the label
    /// text plus room for the logo, or nothing at all without a label.
    pub open spec fn spec_left_width(self) -> int {
        if self.spec_has_label() {
            2 * HORIZ_PADDING + self.spec_label_width() + self.spec_logo_padding()
                + self.spec_logo_width()
        } else {
            0
        }
    }

    /// The horizontal margin before the message text.
    pub open spec fn spec_message_margin(self) -> int {
        let base = self.spec_left_width() - (if self.message@.len() >= 1 {
            10int
        } else {
            0int
        });
        if !self.spec_has_label() {
            if self.spec_has_logo() {
                base + self.spec_logo_padding() + self.spec_logo_width() + HORIZ_PADDING
            } else {
                base + 10
            }
        } else {
            base
        }
    }

    /// The width the message text takes.
    pub open spec fn spec_message_width(self) -> int {
        preferred_width_spec(self.message@)
    }

    /// The width of the right panel: padding on both sides of the message
    /// text, widened for the logo when no label is there to hold it.
    pub open spec fn spec_right_width(self) -> int {
        2 * HORIZ_PADDING + self.spec_message_width() + if self.spec_has_logo()
            && !self.spec_has_label() {
            self.spec_logo_padding() + self.spec_logo_width() + HORIZ_PADDING - 10
        } else {
            0
        }
    }

    /// The total width of the badge.
    pub open spec fn spec_width(self) -> int {
        self.spec_left_width() + self.spec_right_width()
    }
}

impl Badge {
    /// Create a new [`Builder`] for a [`Badge`], with every field at its
    /// default.
    pub fn builder() -> (b: Builder)
        ensures
            b.label_colour is None,
            b.colour is None,
            b.label is None,
            b.message@ == Seq::<char>::empty(),
            b.logo is None,
            b.logo_width is None,
    {
        Builder::default()
    }

    /// Assembles a configuration, filling in the default green for the
    /// main colour and the default grey for the label colour.
    fn new(
        label: Option<String>,
        message: String,
        logo: Option<String>,
        logo_width: Option<u64>,
        colour: Option<Colour>,
        label_colour: Option<Colour>,
    ) -> (b: Badge)
        requires
            (label matches Some(l) ==> l@.len() <= MAX_TEXT_LEN),
            message@.len() <= MAX_TEXT_LEN,
            (logo_width matches Some(w) ==> w <= MAX_LOGO_WIDTH),
        ensures
            b.wf(),
            b.label == label,
            b.message == message,
            b.logo == logo,
            b.logo_width == logo_width,
            b.colour == (match colour {
                Some(c) => c,
                None => Colour { r: 0x44, g: 0xcc, b: 0x11 },
            }),
            b.label_colour == (match label_colour {
                Some(c) => c,
                None => Colour { r: 0x55, g: 0x55, b: 0x55 },
            }),
    {
        let colour = match colour {
            Some(c) => c,
            None => Colour::from_colour_code(0x44_cc_11),
        };
        let label_colour = match label_colour {
            Some(c) => c,
            None => Colour::from_colour_code(0x55_55_55),
        };
        Badge { label_colour, colour, label, message, logo, logo_width }
    }

    /// The background colour of the left panel.
    fn label_colour(&self) -> (r: Colour)
        ensures
            r == self.spec_label_colour(),
    {
        if self.has_label() || self.has_logo() {
            self.label_colour
        } else {
            self.colour
        }
    }

    /// Whether a logo is present and its reference non-empty.
    pub fn has_logo(&self) -> (r: bool)
        ensures
            r == self.spec_has_logo(),
    {
        match &self.logo {
            Some(l) => !l.as_str().is_empty(),
            None => false,
        }
    }

    /// Whether a label is present and non-empty.
    pub fn has_label(&self) -> (r: bool)
        ensures
            r == self.spec_has_label(),
    {
        match &self.label {
            Some(l) => !l.as_str().is_empty(),
            None => false,
        }
    }

    /// The width reserved for the logo, in tenths of a unit.
    pub fn logo_width(&self) -> (r: u64)
        requires
            self.wf(),
        ensures
            r as int == self.spec_logo_width(),
            r <= MAX_LOGO_WIDTH,
    {
        match self.logo_width {
            Some(w) => w,
            None => {
                if self.has_logo() {
                    140
                } else {
                    0
                }
            },
        }
    }

    /// The gap between logo and label, in tenths of a unit.
    pub fn logo_padding(&self) -> (r: u64)
        ensures
            r as int == self.spec_logo_padding(),
    {
        if self.has_label() && self.has_logo() {
            30
        } else {
            0
        }
    }

    /// The text exposed to assistive technology.
    pub fn accessible_text(&self) -> (r: String)
        ensures
            r@ == self.spec_accessible_text(),
    {
        match &self.label {
            Some(l) => {
                let mut out = String::new();
                out.append(l.as_str());
                out.append(": ");
                out.append(self.message.as_str());
                out
            },
            None => self.message.clone(),
        }
    }

    /// The horizontal margin before the label text, in tenths of a unit.
    pub fn label_margin(&self) -> (r: u64)
        requires
            self.wf(),
        ensures
            r as int == self.spec_label_margin(),
    {
        self.logo_width() + self.logo_padding() + 10
    }

    /// The width the label text takes, in tenths of a unit.
    pub fn label_width(&self) -> (r: u64)
        requires
            self.wf(),
        ensures
            r as int == self.spec_label_width(),
            r <= WIDTH_BOUND,
    {
        match &self.label {
            Some(l) => preferred_width(l.as_str()),
            None => {
                proof {
                    reveal_strlit("");
                }
                preferred_width("")
            },
        }
    }

    /// The width of the left panel, in tenths of a unit.
    pub fn left_width(&self) -> (r: u64)
        requires
            self.wf(),
        ensures
            r as int == self.spec_left_width(),
            r <= 2 * WIDTH_BOUND,
    {
        if self.has_label() {
            2 * HORIZ_PADDING + self.label_width() + self.logo_padding() + self.logo_width()
        } else {
            0
        }
    }

    /// The horizontal margin before the message text, in tenths of a unit.
    pub fn message_margin(&self) -> (r: i64)
        requires
            self.wf(),
        ensures
            r as int == self.spec_message_margin(),
            -10 <= r as int <= 3 * WIDTH_BOUND,
    {
        let mut mar: i64 = self.left_width() as i64 - (
        if self.message.as_str().is_empty() {
            0
        } else {
            10
        });
        if !self.has_label() {
            if self.has_logo() {
                mar = mar + (self.logo_padding() + self.logo_width() + HORIZ_PADDING) as i64;
            } else {
                mar = mar + 10;
            }
        }
        mar
    }

    /// The width the message text takes, in tenths of a unit.
    pub fn message_width(&self) -> (r: u64)
        requires
            self.wf(),
        ensures
            r as int == self.spec_message_width(),
            r <= WIDTH_BOUND,
    {
        preferred_width(self.message.as_str())
    }

    /// The width of the right panel, in tenths of a unit.
    pub fn right_width(&self) -> (r: u64)
        requires
            self.wf(),
        ensures
            r as int == self.spec_right_width(),
            r <= 2 * WIDTH_BOUND,
    {
        let mut width: u64 = 2 * HORIZ_PADDING + self.message_width();
        if self.has_logo() && !self.has_label() {
            width = width + self.logo_padding() + self.logo_width() + HORIZ_PADDING - 10;
        }
        width
    }

    /// The total width of the badge, in tenths of a unit.
    pub fn width(&self) -> (r: u64)
        requires
            self.wf(),
        ensures
            r as int == self.spec_width(),
            r <= 4 * WIDTH_BOUND,
    {
        self.left_width() + self.right_width()
    }
}

impl core::default::Default for Builder {
    /// The default builder: no label, no logo, no explicit colours, and
    /// the empty message.
    fn default() -> (b: Builder)
        ensures
            b.label_colour is None,
            b.colour is None,
            b.label is None,
            b.message@ == Seq::<char>::empty(),
            b.logo is None,
            b.logo_width is None,
    {
        Builder {
            label_colour: None,
            colour: None,
            label: None,
            message: String::new(),
            logo: None,
            logo_width: None,
        }
    }
}

impl Builder {
    /// Set the message for the badge.
    #[must_use]
    pub fn message(self, message: String) -> (b: Builder)
        ensures
            b == (Builder { message, ..self }),
    {
        Builder { message, ..self }
    }

    /// Set the label for the badge.
    #[must_use]
    pub fn label(self, label: String) -> (b: Builder)
        ensures
            b == (Builder { label: Some(label), ..self }),
    {
        Builder { label: Some(label), ..self }
    }

    /// Set the colour for the badge.
    #[must_use]
    pub fn colour(self, colour: Colour) -> (b: Builder)
        ensures
            b == (Builder { colour: Some(colour), ..self }),
    {
        Builder { colour: Some(colour), ..self }
    }

    /// Set the label colour for the badge.
    #[must_use]
    pub fn label_colour(self, label_colour: Colour) -> (b: Builder)
        ensures
            b == (Builder { label_colour: Some(label_colour), ..self }),
    {
        Builder { label_colour: Some(label_colour), ..self }
    }

    /// Set the logo for the badge.
    #[must_use]
    pub fn logo(self, logo: String) -> (b: Builder)
        ensures
            b == (Builder { logo: Some(logo), ..self }),
    {
        Builder { logo: Some(logo), ..self }
    }

    /// Set the logo width for the badge, in tenths of a unit.
    #[must_use]
    pub fn logo_width(self, logo_width: u64) -> (b: Builder)
        ensures
            b == (Builder { logo_width: Some(logo_width), ..self }),
    {
        Builder { logo_width: Some(logo_width), ..self }
    }

    /// Build the [`Badge`].
    #[must_use]
    pub fn build(self) -> (b: Badge)
        requires
            (self.label matches Some(l) ==> l@.len() <= MAX_TEXT_LEN),
            self.message@.len() <= MAX_TEXT_LEN,
            (self.logo_width matches Some(w) ==> w <= MAX_LOGO_WIDTH),
        ensures
            b.wf(),
            b.label == self.label,
            b.message == self.message,
            b.logo == self.logo,
            b.logo_width == self.logo_width,
            b.colour == (match self.colour {
                Some(c) => c,
                None => Colour { r: 0x44, g: 0xcc, b: 0x11 },
            }),
            b.label_colour == (match self.label_colour {
                Some(c) => c,
                None => Colour { r: 0x55, g: 0x55, b: 0x55 },
            }),
    {
        Badge::new(self.label, self.message, self.logo, self.logo_width, self.colour, self.label_colour)
    }
}


impl Badge {
    /// The first gradient stop: a faint light overlay at the top.
    pub open spec fn spec_gradient_stop1() -> ElemModel {
        ElemModel {
            name: "stop"@,
            attrs: seq![am("offset", "0"), am("stop-color", "#bbb"), am("stop-opacity", ".1")],
            children: Seq::empty(),
        }
    }

    /// The second gradient stop: a faint dark overlay at the bottom.
    pub open spec fn spec_gradient_stop2() -> ElemModel {
        ElemModel {
            name: "stop"@,
            attrs: seq![am("offset", "1"), am("stop-opacity", ".1")],
            children: Seq::empty(),
        }
    }

    /// The gradient definition standing first in every badge: two stops
    /// fading a light overlay from the top down.
    pub open spec fn spec_gradient() -> ElemModel {
        ElemModel {
            name: "linearGradient"@,
            attrs: seq![am("id", "s"), am("x2", "0"), am("y2", "100%")],
            children: seq![
                Node::Elem(Self::spec_gradient_stop1()),
                Node::Elem(Self::spec_gradient_stop2()),
            ],
        }
    }

    /// The rounded rectangle inside the clip path.
    pub open spec fn spec_clip_rect(self, rx: int) -> ElemModel {
        ElemModel {
            name: "rect"@,
            attrs: seq![
                amt("width", self.spec_width()),
                amt("height", HEIGHT as int),
                amt("rx", rx),
                am("fill", "#fff"),
            ],
            children: Seq::empty(),
        }
    }

    /// The clip path: a rounded rectangle of the badge's full size, with
    /// the given corner radius in tenths of a unit.
    pub open spec fn spec_clip_path(self, rx: int) -> Node {
        Node::Elem(
            ElemModel {
                name: "clipPath"@,
                attrs: seq![am("id", "r")],
                children: seq![Node::Elem(self.spec_clip_rect(rx))],
            },
        )
    }

    /// The left panel rectangle: label-coloured, first in painting order.
    pub open spec fn spec_left_rect(self) -> ElemModel {
        ElemModel {
            name: "rect"@,
            attrs: seq![
                amt("width", self.spec_left_width()),
                amt("height", HEIGHT as int),
                ams("fill", colour_hex(self.spec_label_colour())),
            ],
            children: Seq::empty(),
        }
    }

    /// The right panel rectangle, standing after the left panel.
    pub open spec fn spec_right_rect(self) -> ElemModel {
        ElemModel {
            name: "rect"@,
            attrs: seq![
                amt("x", self.spec_left_width()),
                amt("width", self.spec_right_width()),
                amt("height", HEIGHT as int),
                ams("fill", colour_hex(self.colour)),
            ],
            children: Seq::empty(),
        }
    }

    /// The translucent overlay rectangle painted over both panels.
    pub open spec fn spec_grad_rect(self) -> ElemModel {
        ElemModel {
            name: "rect"@,
            attrs: seq![
                amt("width", self.spec_width()),
                amt("height", HEIGHT as int),
                am("fill", "url(#s)"),
            ],
            children: Seq::empty(),
        }
    }

    /// The background group, assembled from the named rectangles.
    pub open spec fn spec_background_children(self, gradient: bool) -> Seq<Node> {
        if gradient {
            seq![
                Node::Elem(self.spec_left_rect()),
                Node::Elem(self.spec_right_rect()),
                Node::Elem(self.spec_grad_rect()),
            ]
        } else {
            seq![Node::Elem(self.spec_left_rect()), Node::Elem(self.spec_right_rect())]
        }
    }

    /// The background group element.
    pub open spec fn spec_background(self, gradient: bool) -> ElemModel {
        ElemModel {
            name: "g"@,
            attrs: Seq::empty(),
            children: self.spec_background_children(gradient),
        }
    }

    /// The logo image element itself.
    pub open spec fn spec_logo_image(self, href: Seq<char>) -> ElemModel {
        ElemModel {
            name: "image"@,
            attrs: seq![
                amt("x", HORIZ_PADDING as int),
                amt("y", ((HEIGHT - LOGO_HEIGHT) / 2) as int),
                amt("width", self.spec_logo_width()),
                amt("height", LOGO_HEIGHT as int),
                ams("xlink:href", href),
            ],
            children: Seq::empty(),
        }
    }

    /// The logo image node, or the empty fragment without a logo
    /// reference.
    pub open spec fn spec_logo_element(self) -> Node {
        match self.logo {
            None => Node::Text(Seq::empty()),
            Some(l) => Node::Elem(self.spec_logo_image(l@)),
        }
    }

    /// A text block: the empty fragment for an empty text, and otherwise
    /// a shadow text element one unit below the main text element, both
    /// stretched to exactly the given width.  Coordinates are scaled up
    /// tenfold and compensated by a scaling transform.
    pub open spec fn spec_text_element(
        content: Seq<char>,
        colour: Colour,
        width: int,
        margin: int,
    ) -> Node {
        if content.len() == 0 {
            Node::Text(Seq::empty())
        } else {
            let shadow = if SHADOW {
                Node::Elem(Self::spec_text_shadow(content, colour, width, margin))
            } else {
                Node::Text(Seq::empty())
            };
            Node::List(seq![shadow, Node::Elem(Self::spec_text_main(content, colour, width, margin))])
        }
    }

    /// The main text element of a text block.
    pub open spec fn spec_text_main(
        content: Seq<char>,
        colour: Colour,
        width: int,
        margin: int,
    ) -> ElemModel {
        ElemModel {
            name: "text"@,
            attrs: seq![
                amt("x", 5 * width + 10 * margin + 500),
                amt("y", 1400 + VERTICAL_MARGIN as int),
                am("transform", FONT_SCALE_DOWN_VALUE),
                ams("fill", colour_hex(spec_colours_for_background(colour).0)),
                amt("textLength", 10 * width),
            ],
            children: seq![Node::Text(content)],
        }
    }

    /// The decorative shadow text element of a text block, one unit below
    /// the main text.
    pub open spec fn spec_text_shadow(
        content: Seq<char>,
        colour: Colour,
        width: int,
        margin: int,
    ) -> ElemModel {
        ElemModel {
            name: "text"@,
            attrs: seq![
                am("aria-hidden", "true"),
                amt("x", 5 * width + 10 * margin + 500),
                amt("y", 1500 + VERTICAL_MARGIN as int),
                am("transform", FONT_SCALE_DOWN_VALUE),
                ams("fill", colour_hex(spec_colours_for_background(colour).1)),
                am("fill-opacity", ".3"),
                amt("textLength", 10 * width),
            ],
            children: seq![Node::Text(content)],
        }
    }

    /// The label text block.
    pub open spec fn spec_label_element(self) -> Node {
        Self::spec_text_element(
            self.spec_label_text(),
            self.label_colour,
            self.spec_label_width(),
            self.spec_label_margin(),
        )
    }

    /// The message text block.
    pub open spec fn spec_message_element(self) -> Node {
        Self::spec_text_element(
            self.message@,
            self.colour,
            self.spec_message_width(),
            self.spec_message_margin(),
        )
    }

    /// The foreground group: logo, label block and message block, with
    /// the fixed text rendering attributes.
    pub open spec fn spec_foreground(self) -> Node {
        Node::Elem(
            ElemModel {
                name: "g"@,
                attrs: seq![
                    am("fill", "#fff"),
                    am("text-anchor", "middle"),
                    am("font-family", FONT_FAMILY),
                    am("text-rendering", "geometricPrecision"),
                    am("font-size", "110"),
                ],
                children: seq![
                    self.spec_logo_element(),
                    self.spec_label_element(),
                    self.spec_message_element(),
                ],
            },
        )
    }

    /// The accessible title element.
    pub open spec fn spec_title(self) -> ElemModel {
        ElemModel {
            name: "title"@,
            attrs: Seq::empty(),
            children: seq![Node::Text(self.spec_accessible_text())],
        }
    }

    /// The whole document: an `svg` root holding the accessible title and
    /// then, in painting order, the gradient definition, the clip path,
    /// the clipped background group and the foreground group.
    pub open spec fn svg_model(self) -> ElemModel {
        let bg = self.spec_background(true);
        let body = Node::List(
            seq![
                Node::Elem(Self::spec_gradient()),
                self.spec_clip_path(30),
                Node::Elem(
                    ElemModel {
                        name: bg.name,
                        attrs: bg.attrs.push(am("clip-path", "url(#r)")),
                        children: bg.children,
                    },
                ),
                self.spec_foreground(),
            ],
        );
        let title = Node::Elem(self.spec_title());
        ElemModel {
            name: "svg"@,
            attrs: seq![
                am("xmlns", "http://www.w3.org/2000/svg"),
                am("xmlns:xlink", "http://www.w3.org/1999/xlink"),
                amt("width", self.spec_width()),
                amt("height", HEIGHT as int),
                am("role", "img"),
                ams("aria-label", self.spec_accessible_text()),
            ],
            children: seq![title, body],
        }
    }

    /// The rendered badge: the exact character sequence of the SVG
    /// document for this configuration.
    pub open spec fn svg_spec(self) -> Seq<char> {
        rendered_elem(self.svg_model())
    }
}



impl Badge {
    /// Builds the logo image element, or the empty fragment when there is
    /// no logo reference.
    fn logo_element(&self) -> (r: Content)
        requires
            self.wf(),
        ensures
            content_model(r) == self.spec_logo_element(),
    {
        match &self.logo {
            None => Content::default(),
            Some(logo) => {
                let e = Element::new("image").attr_num("x", HORIZ_PADDING as i64).attr_num(
                    "y",
                    ((HEIGHT - LOGO_HEIGHT) / 2) as i64,
                ).attr_num("width", self.logo_width() as i64).attr_num(
                    "height",
                    LOGO_HEIGHT as i64,
                ).attr("xlink:href", logo.as_str());
                let r = Content::Element(e);
                proof {
                    lemma_content_models_index(e.content@);
                    assert(elem_model(e) =~~= self.spec_logo_image(logo@));
                    assert(content_model(r) =~~= self.spec_logo_element());
                }
                r
            },
        }
    }

    /// Builds the clip path element, with the corner radius in tenths of
    /// a unit.
    fn clip_path(&self, rx: i64) -> (r: Content)
        requires
            self.wf(),
            0 <= rx <= 1000,
        ensures
            content_model(r) == self.spec_clip_path(rx as int),
    {
        let rect = Element::new("rect").attr_num("width", self.width() as i64).attr_num(
            "height",
            HEIGHT as i64,
        ).attr_num("rx", rx).attr("fill", "#fff");
        let mut cv: Vec<Content> = Vec::new();
        cv.push(Content::Element(rect));
        let e = Element::new("clipPath").content(cv).attr("id", "r");
        let r = Content::Element(e);
        proof {
            lemma_content_models_index(rect.content@);
            lemma_content_models_index(e.content@);
            assert(elem_model(rect) =~~= self.spec_clip_rect(rx as int));
            assert(elem_model(e) =~~= (ElemModel {
                name: "clipPath"@,
                attrs: seq![am("id", "r")],
                children: seq![Node::Elem(self.spec_clip_rect(rx as int))],
            }));
            assert(content_model(r) =~~= self.spec_clip_path(rx as int));
        }
        r
    }
}





impl Badge {
    /// Builds the background group: left panel, right panel, and the
    /// gradient overlay when asked for.
    fn background_group_element(&self, gradient: bool) -> (e: Element)
        requires
            self.wf(),
        ensures
            elem_model(e) == self.spec_background(gradient),
    {
        let lc = self.label_colour().to_hex_string();
        let left_rect = Element::new("rect").attr_num("width", self.left_width() as i64).attr_num(
            "height",
            HEIGHT as i64,
        ).attr("fill", lc.as_str());
        let rc = self.colour.to_hex_string();
        let right_rect = Element::new("rect").attr_num("x", self.left_width() as i64).attr_num(
            "width",
            self.right_width() as i64,
        ).attr_num("height", HEIGHT as i64).attr("fill", rc.as_str());
        proof {
            lemma_content_models_index(left_rect.content@);
            lemma_content_models_index(right_rect.content@);
            assert(elem_model(left_rect) =~~= self.spec_left_rect());
            assert(elem_model(right_rect) =~~= self.spec_right_rect());
        }
        let mut content: Vec<Content> = Vec::new();
        content.push(Content::Element(left_rect));
        content.push(Content::Element(right_rect));
        if gradient {
            let grad = Element::new("rect").attr_num("width", self.width() as i64).attr_num(
                "height",
                HEIGHT as i64,
            ).attr("fill", "url(#s)");
            proof {
                lemma_content_models_index(grad.content@);
                assert(elem_model(grad) =~~= self.spec_grad_rect());
            }
            content.push(Content::Element(grad));
        }
        let e = Element::new("g").content(content);
        proof {
            lemma_content_models_index(e.content@);
            assert(content_models(e.content@) =~~= self.spec_background_children(gradient));
            assert(elem_model(e) =~~= self.spec_background(gradient));
        }
        e
    }

    /// Builds a text block: a shadow text element and the main text
    /// element, or the empty fragment for an empty text.
    fn _text_element(content: &str, colour: Colour, width: u64, margin: i64) -> (r: Content)
        requires
            width <= WIDTH_BOUND,
            -10 <= margin as int <= 3 * WIDTH_BOUND,
        ensures
            content_model(r) == Self::spec_text_element(
                content@,
                colour,
                width as int,
                margin as int,
            ),
    {
        if content.is_empty() {
            return Content::default();
        }
        let pair = colours_for_background(colour);
        let x: i64 = 5 * (width as i64) + 10 * margin + 500;
        let tl: i64 = 10 * (width as i64);
        let text_hex = pair.0.to_hex_string();
        let shadow_hex = pair.1.to_hex_string();
        let mut tv: Vec<Content> = Vec::new();
        tv.push(Content::Text(String::from_str(content)));
        let text = Element::new("text").content(tv).attr_num("x", x).attr_num(
            "y",
            1400 + VERTICAL_MARGIN,
        ).attr("transform", FONT_SCALE_DOWN_VALUE).attr("fill", text_hex.as_str()).attr_num(
            "textLength",
            tl,
        );
        let mut sv: Vec<Content> = Vec::new();
        sv.push(Content::Text(String::from_str(content)));
        let shadow_text = Element::new("text").content(sv).attr("aria-hidden", "true").attr_num(
            "x",
            x,
        ).attr_num("y", 1500 + VERTICAL_MARGIN).attr("transform", FONT_SCALE_DOWN_VALUE).attr(
            "fill",
            shadow_hex.as_str(),
        ).attr("fill-opacity", ".3").attr_num("textLength", tl);
        proof {
            lemma_content_models_index(text.content@);
            lemma_content_models_index(shadow_text.content@);
            assert(elem_model(text) =~~= Self::spec_text_main(
                content@,
                colour,
                width as int,
                margin as int,
            ));
            assert(elem_model(shadow_text) =~~= Self::spec_text_shadow(
                content@,
                colour,
                width as int,
                margin as int,
            ));
        }
        let shadow = if SHADOW {
            Content::Element(shadow_text)
        } else {
            Content::default()
        };
        let mut lv: Vec<Content> = Vec::new();
        lv.push(shadow);
        lv.push(Content::Element(text));
        let r = Content::List(ElementList::new(lv));
        proof {
            lemma_content_models_index(lv@);
            assert(content_models(lv@) =~~= seq![
                if SHADOW {
                    Node::Elem(Self::spec_text_shadow(content@, colour, width as int, margin as int))
                } else {
                    Node::Text(Seq::empty())
                },
                Node::Elem(Self::spec_text_main(content@, colour, width as int, margin as int)),
            ]);
            assert(content_model(r) =~~= Self::spec_text_element(
                content@,
                colour,
                width as int,
                margin as int,
            ));
        }
        r
    }

    /// Builds the label text block.
    fn label_element(&self) -> (r: Content)
        requires
            self.wf(),
        ensures
            content_model(r) == self.spec_label_element(),
    {
        match &self.label {
            Some(l) => Self::_text_element(
                l.as_str(),
                self.label_colour,
                self.label_width(),
                self.label_margin() as i64,
            ),
            None => {
                proof {
                    reveal_strlit("");
                }
                Self::_text_element(
                    "",
                    self.label_colour,
                    self.label_width(),
                    self.label_margin() as i64,
                )
            },
        }
    }

    /// Builds the message text block.
    fn message_element(&self) -> (r: Content)
        requires
            self.wf(),
        ensures
            content_model(r) == self.spec_message_element(),
    {
        Self::_text_element(
            self.message.as_str(),
            self.colour,
            self.message_width(),
            self.message_margin(),
        )
    }

    /// Builds the foreground group: logo, label block and message block.
    fn foreground_group_element(&self) -> (r: Content)
        requires
            self.wf(),
        ensures
            content_model(r) == self.spec_foreground(),
    {
        let mut content: Vec<Content> = Vec::new();
        content.push(self.logo_element());
        content.push(self.label_element());
        content.push(self.message_element());
        let e = Element::new("g").content(content).attr("fill", "#fff").attr(
            "text-anchor",
            "middle",
        ).attr("font-family", FONT_FAMILY).attr("text-rendering", "geometricPrecision").attr(
            "font-size",
            "110",
        );
        let r = Content::Element(e);
        proof {
            lemma_content_models_index(e.content@);
            assert(content_models(e.content@) =~~= seq![
                self.spec_logo_element(),
                self.spec_label_element(),
                self.spec_message_element(),
            ]);
            assert(elem_model(e) =~~= (ElemModel {
                name: "g"@,
                attrs: seq![
                    am("fill", "#fff"),
                    am("text-anchor", "middle"),
                    am("font-family", FONT_FAMILY),
                    am("text-rendering", "geometricPrecision"),
                    am("font-size", "110"),
                ],
                children: seq![
                    self.spec_logo_element(),
                    self.spec_label_element(),
                    self.spec_message_element(),
                ],
            }));
            assert(content_model(r) =~~= self.spec_foreground());
        }
        r
    }

    /// Renders the badge: the complete standalone SVG document for this
    /// configuration, byte-identical on every call.
    pub fn render(&self) -> (r: String)
        requires
            self.wf(),
        ensures
            r@ == self.svg_spec(),
    {
        let stop1 = Element::new("stop").attr("offset", "0").attr("stop-color", "#bbb").attr(
            "stop-opacity",
            ".1",
        );
        let stop2 = Element::new("stop").attr("offset", "1").attr("stop-opacity", ".1");
        proof {
            lemma_content_models_index(stop1.content@);
            lemma_content_models_index(stop2.content@);
            assert(elem_model(stop1) =~~= Self::spec_gradient_stop1());
            assert(elem_model(stop2) =~~= Self::spec_gradient_stop2());
        }
        let mut gv: Vec<Content> = Vec::new();
        gv.push(Content::Element(stop1));
        gv.push(Content::Element(stop2));
        let gradient = Element::new("linearGradient").content(gv).attr("id", "s").attr(
            "x2",
            "0",
        ).attr("y2", "100%");
        proof {
            lemma_content_models_index(gradient.content@);
            assert(content_models(gradient.content@) =~~= seq![
                Node::Elem(Self::spec_gradient_stop1()),
                Node::Elem(Self::spec_gradient_stop2()),
            ]);
            assert(elem_model(gradient) =~~= Self::spec_gradient());
        }
        let clip_path = self.clip_path(30);
        let background_group = self.background_group_element(true).attr(
            "clip-path",
            "url(#r)",
        );
        let mut bv: Vec<Content> = Vec::new();
        bv.push(Content::Element(gradient));
        bv.push(clip_path);
        bv.push(Content::Element(background_group));
        bv.push(self.foreground_group_element());
        let body = Content::List(ElementList::new(bv));
        let a11y_text = self.accessible_text();
        let mut titv: Vec<Content> = Vec::new();
        titv.push(Content::Text(a11y_text));
        let title_elem = Element::new("title").content(titv);
        proof {
            lemma_content_models_index(title_elem.content@);
            assert(elem_model(title_elem) =~~= self.spec_title());
        }
        let title = Content::Element(title_elem);
        let width = self.left_width() + self.right_width();
        let aria_text = self.accessible_text();
        let mut cv: Vec<Content> = Vec::new();
        cv.push(title);
        cv.push(body);
        let svg = Element::new("svg").content(cv).attr(
            "xmlns",
            "http://www.w3.org/2000/svg",
        ).attr("xmlns:xlink", "http://www.w3.org/1999/xlink").attr_num(
            "width",
            width as i64,
        ).attr_num("height", HEIGHT as i64).attr("role", "img").attr(
            "aria-label",
            aria_text.as_str(),
        );
        proof {
            lemma_content_models_index(bv@);
            lemma_content_models_index(svg.content@);
            assert(elem_model(background_group) =~~= (ElemModel {
                name: self.spec_background(true).name,
                attrs: self.spec_background(true).attrs.push(am("clip-path", "url(#r)")),
                children: self.spec_background(true).children,
            }));
            assert(content_models(bv@) =~~= seq![
                Node::Elem(Self::spec_gradient()),
                self.spec_clip_path(30),
                Node::Elem(
                    ElemModel {
                        name: self.spec_background(true).name,
                        attrs: self.spec_background(true).attrs.push(am("clip-path", "url(#r)")),
                        children: self.spec_background(true).children,
                    },
                ),
                self.spec_foreground(),
            ]);
            assert(content_models(svg.content@) =~~= seq![
                Node::Elem(self.spec_title()),
                Node::List(content_models(bv@)),
            ]);
            assert(elem_model(svg) =~~= self.svg_model());
        }
        svg.render()
    }
}


} // verus!
