//! The canvas collaborator, as the turtle sees it.
//!
//! The real rasterizer and window live outside this crate; what the core
//! guarantees about drawing is exactly which calls the turtle issues. The
//! [`Canvas`] here records those calls: every drawn line, text and flood
//! fill, the background color, the turtle's last-known pose and visibility,
//! and how many times a redraw was requested. A rendering backend replays
//! this record; the contracts of the turtle are stated over it.
//!
//! Coordinates are milli-units with the origin at the canvas center,
//! positive to the right and up. Angles are milli-degrees. Color channels
//! are milli-units in `[0, 1000]`, alpha included.

use vstd::prelude::*;

verus! {

/// Highest value of a color channel: full intensity.
pub const CHANNEL_MAX: i64 = 1000;

/// An RGBA color, channels in milli-units `[0, 1000]`.
#[derive(Clone, Copy, PartialEq, Eq, Debug)]
pub struct Color {
    pub red: i64,
    pub green: i64,
    pub blue: i64,
    pub alpha: i64,
}

impl Color {
    /// Opaque black as a model value.
    pub open spec fn black_spec() -> Color {
        Color { red: 0, green: 0, blue: 0, alpha: CHANNEL_MAX }
    }

    /// Opaque white as a model value.
    pub open spec fn white_spec() -> Color {
        Color { red: CHANNEL_MAX, green: CHANNEL_MAX, blue: CHANNEL_MAX, alpha: CHANNEL_MAX }
    }

    /// Every channel is a milli-unit.
    pub open spec fn wf(&self) -> bool {
        0 <= self.red <= CHANNEL_MAX && 0 <= self.green <= CHANNEL_MAX && 0 <= self.blue
            <= CHANNEL_MAX && 0 <= self.alpha <= CHANNEL_MAX
    }

    /// Opaque black, the turtle's starting color.
    pub fn black() -> (r: Color)
        ensures
            r == Color::black_spec(),
    {
        Color { red: 0, green: 0, blue: 0, alpha: CHANNEL_MAX }
    }

    /// Opaque white, the canvas's starting background.
    pub fn white() -> (r: Color)
        ensures
            r == Color::white_spec(),
    {
        Color { red: CHANNEL_MAX, green: CHANNEL_MAX, blue: CHANNEL_MAX, alpha: CHANNEL_MAX }
    }
}

/// One recorded line segment.
#[derive(Clone, Copy, PartialEq, Eq, Debug)]
pub struct LineSegment {
    pub from: (i64, i64),
    pub to: (i64, i64),
    pub color: Color,
}

/// One recorded piece of text, anchored at its lower-left corner.
#[derive(Debug)]
pub struct TextEntry {
    pub at: (i64, i64),
    pub orientation: i64,
    pub color: Color,
    pub text: String,
}

/// Model of a recorded text: the same fields with the text as characters.
pub ghost struct TextModel {
    pub at: (i64, i64),
    pub orientation: i64,
    pub color: Color,
    pub text: Seq<char>,
}

impl View for TextEntry {
    type V = TextModel;

    open spec fn view(&self) -> TextModel {
        TextModel {
            at: self.at,
            orientation: self.orientation,
            color: self.color,
            text: self.text@,
        }
    }
}

/// One recorded flood fill: the seed point and the fill color.
#[derive(Clone, Copy, PartialEq, Eq, Debug)]
pub struct FillSpot {
    pub at: (i64, i64),
    pub color: Color,
}

/// The record of everything the turtle asked of its canvas.
pub struct Canvas {
    /// Lines drawn so far, oldest first.
    pub lines: Vec<LineSegment>,
    /// Texts written so far, oldest first.
    pub texts: Vec<TextEntry>,
    /// Flood fills issued so far, oldest first.
    pub fills: Vec<FillSpot>,
    /// The background color.
    pub background_color: Color,
    /// The turtle's last-known position, for drawing the cursor marker.
    pub turtle_position: (i64, i64),
    /// The turtle's last-known orientation, milli-degrees.
    pub turtle_orientation: i64,
    /// The turtle's last-known drawing color.
    pub turtle_color: Color,
    /// Whether the cursor marker is hidden.
    pub turtle_hidden: bool,
    /// How many redraws have been requested.
    pub redraws: Ghost<nat>,
}

impl Canvas {
    /// A fresh canvas: nothing drawn, white background, cursor marker at the
    /// origin heading north in black, shown.
    pub fn new() -> (r: Canvas)
        ensures
            r.lines@ =~= Seq::<LineSegment>::empty(),
            r.texts@ =~= Seq::<TextEntry>::empty(),
            r.fills@ =~= Seq::<FillSpot>::empty(),
            r.background_color == Color::white_spec(),
            r.turtle_position == (0i64, 0i64),
            r.turtle_orientation == 0i64,
            r.turtle_color == Color::black_spec(),
            r.turtle_hidden == false,
            r.redraws@ == 0,
    {
        Canvas {
            lines: Vec::new(),
            texts: Vec::new(),
            fills: Vec::new(),
            background_color: Color::white(),
            turtle_position: (0, 0),
            turtle_orientation: 0,
            turtle_color: Color::black(),
            turtle_hidden: false,
            redraws: Ghost(0),
        }
    }

    /// Record a drawn segment from `from` to `to` in `color`.
    pub fn add_line(&mut self, from: (i64, i64), to: (i64, i64), color: Color)
        ensures
            final(self).lines@ == old(self).lines@.push(LineSegment { from, to, color }),
            final(self).texts@ == old(self).texts@,
            final(self).fills@ == old(self).fills@,
            final(self).background_color == old(self).background_color,
            final(self).turtle_position == old(self).turtle_position,
            final(self).turtle_orientation == old(self).turtle_orientation,
            final(self).turtle_color == old(self).turtle_color,
            final(self).turtle_hidden == old(self).turtle_hidden,
            final(self).redraws == old(self).redraws,
    {
        self.lines.push(LineSegment { from, to, color });
    }

    /// Record text anchored at its lower-left corner at `at`.
    pub fn add_text(&mut self, at: (i64, i64), orientation: i64, color: Color, text: &str)
        ensures
            final(self).texts@.len() == old(self).texts@.len() + 1,
            final(self).texts@.last()@ == (TextModel { at, orientation, color, text: text@ }),
            final(self).texts@.subrange(0, old(self).texts@.len() as int) == old(self).texts@,
            final(self).lines@ == old(self).lines@,
            final(self).fills@ == old(self).fills@,
            final(self).background_color == old(self).background_color,
            final(self).turtle_position == old(self).turtle_position,
            final(self).turtle_orientation == old(self).turtle_orientation,
            final(self).turtle_color == old(self).turtle_color,
            final(self).turtle_hidden == old(self).turtle_hidden,
            final(self).redraws == old(self).redraws,
    {
        let entry = TextEntry { at, orientation, color, text: text.to_owned() };
        self.texts.push(entry);
        proof {
            assert(self.texts@.subrange(0, old(self).texts@.len() as int) =~= old(self).texts@);
        }
    }

    /// Record a flood fill of the contiguous region containing `at` in
    /// `color`.
    pub fn floodfill(&mut self, at: (i64, i64), color: Color)
        ensures
            final(self).fills@ == old(self).fills@.push(FillSpot { at, color }),
            final(self).lines@ == old(self).lines@,
            final(self).texts@ == old(self).texts@,
            final(self).background_color == old(self).background_color,
            final(self).turtle_position == old(self).turtle_position,
            final(self).turtle_orientation == old(self).turtle_orientation,
            final(self).turtle_color == old(self).turtle_color,
            final(self).turtle_hidden == old(self).turtle_hidden,
            final(self).redraws == old(self).redraws,
    {
        self.fills.push(FillSpot { at, color });
    }

    /// Remove every drawn primitive. The background and the turtle pose are
    /// unaffected.
    pub fn clear(&mut self)
        ensures
            final(self).lines@ =~= Seq::<LineSegment>::empty(),
            final(self).texts@ =~= Seq::<TextEntry>::empty(),
            final(self).fills@ =~= Seq::<FillSpot>::empty(),
            final(self).background_color == old(self).background_color,
            final(self).turtle_position == old(self).turtle_position,
            final(self).turtle_orientation == old(self).turtle_orientation,
            final(self).turtle_color == old(self).turtle_color,
            final(self).turtle_hidden == old(self).turtle_hidden,
            final(self).redraws == old(self).redraws,
    {
        self.lines.clear();
        self.texts.clear();
        self.fills.clear();
    }

    /// Request a re-render of the current state.
    pub fn draw_and_update(&mut self)
        ensures
            final(self).redraws@ == old(self).redraws@ + 1,
            final(self).lines@ == old(self).lines@,
            final(self).texts@ == old(self).texts@,
            final(self).fills@ == old(self).fills@,
            final(self).background_color == old(self).background_color,
            final(self).turtle_position == old(self).turtle_position,
            final(self).turtle_orientation == old(self).turtle_orientation,
            final(self).turtle_color == old(self).turtle_color,
            final(self).turtle_hidden == old(self).turtle_hidden,
    {
        self.redraws = Ghost(self.redraws@ + 1);
    }
}

/// The whole canvas record as one ghost value, for stating turtle
/// transitions.
#[verifier::ext_equal]
pub ghost struct CanvasModel {
    pub lines: Seq<LineSegment>,
    pub texts: Seq<TextModel>,
    pub fills: Seq<FillSpot>,
    pub background_color: Color,
    pub turtle_position: (i64, i64),
    pub turtle_orientation: i64,
    pub turtle_color: Color,
    pub turtle_hidden: bool,
    pub redraws: nat,
}

impl View for Canvas {
    type V = CanvasModel;

    open spec fn view(&self) -> CanvasModel {
        CanvasModel {
            lines: self.lines@,
            texts: self.texts@.map_values(|t: TextEntry| t@),
            fills: self.fills@,
            background_color: self.background_color,
            turtle_position: self.turtle_position,
            turtle_orientation: self.turtle_orientation,
            turtle_color: self.turtle_color,
            turtle_hidden: self.turtle_hidden,
            redraws: self.redraws@,
        }
    }
}

} // verus!
