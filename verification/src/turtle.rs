//! The turtle: a cursor with position, heading, pen state and color that
//! draws onto its canvas as it moves.
//!
//! The turtle owns exactly one [`Canvas`] and lives for the whole session.
//! Positions are milli-units from the canvas center; the orientation is in
//! milli-degrees, zero facing north (up) and positive counting
//! counter-clockwise. Every contract is stated over [`TurtleModel`], the
//! ghost value of the whole turtle, through the transition functions below,
//! so that sequences of commands compose in proofs exactly as they do at run
//! time.
//!
//! Orientation is kept in the machine-remainder normal form of the
//! underlying angle: after `set_orientation(deg)` it is `deg` reduced by
//! whole turns keeping the sign of `deg`, so it always lies strictly between
//! minus one turn and one turn. Coordinates live on a huge but bounded
//! canvas: the move primitive clamps each coordinate into
//! `[-POS_LIMIT, POS_LIMIT]`, which no move of an allowed length can reach
//! from the origin in any realistic session.

use vstd::prelude::*;

use crate::canvas::{Canvas, CanvasModel, Color, FillSpot, LineSegment, TextModel, CHANNEL_MAX};
use crate::trig::{cosine, norm_angle, sine, spec_cosine, spec_sine, tdiv, trem, DEG_FULL};

verus! {

/// Largest coordinate magnitude the canvas addresses, milli-units.
pub const POS_LIMIT: i64 = 1000000000000000;

/// Largest length of a single move, milli-units.
pub const LEN_LIMIT: i64 = 1000000000000;

/// Largest angle argument a turn or an orientation change accepts,
/// milli-degrees; far beyond any drawing's needs, bounded only so that the
/// machine arithmetic cannot overflow.
pub const DEG_LIMIT: i64 = 1000000000000;

/// Whether a move draws a visible line (`PenDown`) or not (`PenUp`).
#[derive(Clone, Copy, PartialEq, Eq, Debug)]
pub enum PenState {
    PenUp,
    PenDown,
}

/// The ghost value of a whole turtle: its own state and its canvas record.
#[verifier::ext_equal]
pub ghost struct TurtleModel {
    pub position: (i64, i64),
    pub orientation: i64,
    pub color: Color,
    pub pen_down: bool,
    pub screen: CanvasModel,
}

/// The turtle. It is the only writer of its canvas.
pub struct Turtle {
    screen: Canvas,
    orientation: i64,
    position: (i64, i64),
    color: Color,
    pen: PenState,
}

impl View for Turtle {
    type V = TurtleModel;

    closed spec fn view(&self) -> TurtleModel {
        TurtleModel {
            position: self.position,
            orientation: self.orientation,
            color: self.color,
            pen_down: self.pen is PenDown,
            screen: self.screen@,
        }
    }
}

/// A coordinate clamped onto the canvas.
pub open spec fn clamp_coord(v: int) -> i64 {
    if v > POS_LIMIT as int {
        POS_LIMIT
    } else if v < -(POS_LIMIT as int) {
        (-(POS_LIMIT as int)) as i64
    } else {
        v as i64
    }
}

/// The cartesian displacement of a move of `len` at orientation `o`: the
/// heading-vector rule `(-sin(o) * len, cos(o) * len)`, in milli-units with
/// the products truncated toward zero as the machine does.
pub open spec fn heading_vector(o: int, len: int) -> (int, int) {
    (-tdiv(spec_sine(o) * len, 1000), tdiv(spec_cosine(o) * len, 1000))
}

/// A well-formed turtle: orientation in normal form, position on the
/// canvas, color channels milli-units.
pub open spec fn turtle_wf(t: TurtleModel) -> bool {
    &&& -(DEG_FULL as int) < t.orientation < DEG_FULL as int
    &&& -(POS_LIMIT as int) <= t.position.0 <= POS_LIMIT as int
    &&& -(POS_LIMIT as int) <= t.position.1 <= POS_LIMIT as int
    &&& t.color.wf()
}

/// The move primitive: the pre-move position is recorded; if the pen is
/// down, exactly one line from it to the target is added; the position and
/// the canvas's displayed pose take the target; one redraw is requested.
pub open spec fn spec_goto(t: TurtleModel, x: i64, y: i64) -> TurtleModel {
    let drawn = if t.pen_down {
        t.screen.lines.push(LineSegment { from: t.position, to: (x, y), color: t.color })
    } else {
        t.screen.lines
    };
    TurtleModel {
        position: (x, y),
        screen: CanvasModel {
            lines: drawn,
            turtle_position: (x, y),
            redraws: t.screen.redraws + 1,
            ..t.screen
        },
        ..t
    }
}

/// A direct move to `(x, y)`, clamped onto the canvas.
pub open spec fn spec_teleport(t: TurtleModel, x: i64, y: i64) -> TurtleModel {
    spec_goto(t, clamp_coord(x as int), clamp_coord(y as int))
}

/// A move of `len` along the current heading.
pub open spec fn spec_forward(t: TurtleModel, len: i64) -> TurtleModel {
    let d = heading_vector(t.orientation as int, len as int);
    spec_goto(t, clamp_coord(t.position.0 + d.0), clamp_coord(t.position.1 + d.1))
}

/// A move of `len` against the current heading.
pub open spec fn spec_backward(t: TurtleModel, len: i64) -> TurtleModel {
    let d = heading_vector(t.orientation as int, len as int);
    spec_goto(t, clamp_coord(t.position.0 - d.0), clamp_coord(t.position.1 - d.1))
}

/// The orientation takes `deg` reduced by whole turns (machine remainder,
/// sign of `deg` kept), the canvas pose follows, one redraw is requested.
pub open spec fn spec_set_orientation(t: TurtleModel, deg: int) -> TurtleModel {
    let o = trem(deg, DEG_FULL as int) as i64;
    TurtleModel {
        orientation: o,
        screen: CanvasModel {
            turtle_orientation: o,
            redraws: t.screen.redraws + 1,
            ..t.screen
        },
        ..t
    }
}

/// A turn by `deg` counter-clockwise: the orientation moves by `deg` and is
/// reduced as `spec_set_orientation` says.
pub open spec fn spec_turn(t: TurtleModel, deg: int) -> TurtleModel {
    spec_set_orientation(t, t.orientation + deg)
}

impl Turtle {
    /// This turtle is well-formed.
    pub open spec fn wf(&self) -> bool {
        turtle_wf(self@)
    }

    /// A new turtle bound to the given canvas: at the origin, heading
    /// north, pen down, drawing in black. The canvas pose is synchronized
    /// with the turtle's state.
    pub fn new(screen: Canvas) -> (r: Turtle)
        ensures
            r.wf(),
            r@.position == (0i64, 0i64),
            r@.orientation == 0i64,
            r@.color == Color::black_spec(),
            r@.pen_down == true,
            r@.screen == (CanvasModel {
                turtle_position: (0i64, 0i64),
                turtle_orientation: 0i64,
                turtle_color: Color::black_spec(),
                ..screen@
            }),
    {
        let mut screen = screen;
        screen.turtle_position = (0, 0);
        screen.turtle_orientation = 0;
        screen.turtle_color = Color::black();
        Turtle {
            screen,
            orientation: 0,
            position: (0, 0),
            color: Color::black(),
            pen: PenState::PenDown,
        }
    }

    /// A reference to the underlying canvas record.
    pub fn get_screen(&mut self) -> (r: &mut Canvas)
        ensures
            (*r)@ == old(self)@.screen,
            final(self)@ == (TurtleModel { screen: (*final(r))@, ..old(self)@ }),
            old(self).wf() ==> final(self).wf(),
    {
        &mut self.screen
    }

    /// The current position, milli-units.
    pub fn get_position(&self) -> (r: (i64, i64))
        ensures
            r == self@.position,
    {
        self.position
    }

    /// The current orientation, milli-degrees.
    pub fn get_orientation(&self) -> (r: i64)
        ensures
            r == self@.orientation,
    {
        self.orientation
    }

    /// Whether the cursor marker is hidden.
    pub fn is_hidden(&self) -> (r: bool)
        ensures
            r == self@.screen.turtle_hidden,
    {
        self.screen.turtle_hidden
    }

    /// Lift the pen: later moves draw no lines.
    pub fn pen_up(&mut self)
        ensures
            final(self)@ == (TurtleModel { pen_down: false, ..old(self)@ }),
            old(self).wf() ==> final(self).wf(),
    {
        self.pen = PenState::PenUp;
    }

    /// Sink the pen: later moves draw lines again.
    pub fn pen_down(&mut self)
        ensures
            final(self)@ == (TurtleModel { pen_down: true, ..old(self)@ }),
            old(self).wf() ==> final(self).wf(),
    {
        self.pen = PenState::PenDown;
    }

    /// The move primitive behind every movement command; `x` and `y` must
    /// already lie on the canvas.
    fn goto(&mut self, x: i64, y: i64)
        requires
            -POS_LIMIT <= x <= POS_LIMIT,
            -POS_LIMIT <= y <= POS_LIMIT,
        ensures
            final(self)@ == spec_goto(old(self)@, x, y),
            old(self).wf() ==> final(self).wf(),
    {
        let start = self.position;
        match self.pen {
            PenState::PenDown => {
                self.screen.add_line(start, (x, y), self.color);
            },
            PenState::PenUp => {},
        }
        self.position = (x, y);
        self.screen.turtle_position = (x, y);
        self.screen.draw_and_update();
        proof {
            assert(self@.screen =~= spec_goto(old(self)@, x, y).screen);
            assert(self@ =~= spec_goto(old(self)@, x, y));
        }
    }

    /// Clamp a target coordinate onto the canvas.
    fn clamp(v: i64) -> (r: i64)
        ensures
            r == clamp_coord(v as int),
    {
        if v > POS_LIMIT {
            POS_LIMIT
        } else if v < -POS_LIMIT {
            -POS_LIMIT
        } else {
            v
        }
    }

    /// Move straight to `(x, y)` without changing the orientation; a line
    /// is drawn exactly when the pen is down.
    pub fn teleport(&mut self, x: i64, y: i64)
        requires
            old(self).wf(),
        ensures
            final(self)@ == spec_teleport(old(self)@, x, y),
            final(self).wf(),
    {
        let cx = Self::clamp(x);
        let cy = Self::clamp(y);
        self.goto(cx, cy);
    }

    /// The displacement that a move of `length` along the current heading
    /// walks.
    fn length_to_vector(&self, length: i64) -> (r: (i64, i64))
        requires
            self.wf(),
            -LEN_LIMIT <= length <= LEN_LIMIT,
        ensures
            (r.0 as int, r.1 as int) == heading_vector(self@.orientation as int, length as int),
            -LEN_LIMIT <= r.0 <= LEN_LIMIT,
            -LEN_LIMIT <= r.1 <= LEN_LIMIT,
    {
        let s = sine(self.orientation);
        let c = cosine(self.orientation);
        proof {
            lemma_milli_product_bound(s as int, length as int);
            lemma_milli_product_bound(c as int, length as int);
        }
        let dx = Self::div_milli(s * length);
        let dy = Self::div_milli(c * length);
        (-dx, dy)
    }

    /// Truncating division by the fixed-point scale.
    fn div_milli(a: i64) -> (r: i64)
        requires
            -1000 * LEN_LIMIT <= a <= 1000 * LEN_LIMIT,
        ensures
            r == tdiv(a as int, 1000),
            -LEN_LIMIT <= r <= LEN_LIMIT,
    {
        proof {
            lemma_tdiv_milli_bound(a as int, LEN_LIMIT as int);
        }
        if a >= 0 {
            a / 1000
        } else {
            -((-a) / 1000)
        }
    }

    /// Move forward by `length` along the current heading.
    pub fn forward(&mut self, length: i64)
        requires
            old(self).wf(),
            -LEN_LIMIT <= length <= LEN_LIMIT,
        ensures
            final(self)@ == spec_forward(old(self)@, length),
            final(self).wf(),
    {
        let (dx, dy) = self.length_to_vector(length);
        let x = Self::clamp(self.position.0 + dx);
        let y = Self::clamp(self.position.1 + dy);
        self.goto(x, y);
    }

    /// Move backward by `length` against the current heading.
    pub fn backward(&mut self, length: i64)
        requires
            old(self).wf(),
            -LEN_LIMIT <= length <= LEN_LIMIT,
        ensures
            final(self)@ == spec_backward(old(self)@, length),
            final(self).wf(),
    {
        let (dx, dy) = self.length_to_vector(length);
        let x = Self::clamp(self.position.0 - dx);
        let y = Self::clamp(self.position.1 - dy);
        self.goto(x, y);
    }

    /// Reduce an angle by whole turns, keeping the sign of the input.
    fn rem_full(deg: i64) -> (r: i64)
        requires
            -DEG_LIMIT - DEG_FULL <= deg <= DEG_LIMIT + DEG_FULL,
        ensures
            r == trem(deg as int, DEG_FULL as int),
            -DEG_FULL < r < DEG_FULL,
    {
        if deg >= 0 {
            deg % DEG_FULL
        } else {
            -((-deg) % DEG_FULL)
        }
    }

    /// Face `deg` milli-degrees, reduced by whole turns; the canvas pose
    /// follows and a redraw is requested.
    pub fn set_orientation(&mut self, deg: i64)
        requires
            old(self).wf(),
            -DEG_LIMIT <= deg <= DEG_LIMIT,
        ensures
            final(self)@ == spec_set_orientation(old(self)@, deg as int),
            final(self).wf(),
    {
        let o = Self::rem_full(deg);
        self.orientation = o;
        self.screen.turtle_orientation = o;
        self.screen.draw_and_update();
        proof {
            assert(self@.screen =~= spec_set_orientation(old(self)@, deg as int).screen);
            assert(self@ =~= spec_set_orientation(old(self)@, deg as int));
        }
    }

    /// Turn by `deg` counter-clockwise (negative: clockwise).
    fn turn(&mut self, deg: i64)
        requires
            old(self).wf(),
            -DEG_LIMIT <= deg <= DEG_LIMIT,
        ensures
            final(self)@ == spec_turn(old(self)@, deg as int),
            final(self).wf(),
    {
        let target = self.orientation + deg;
        let o = Self::rem_full(target);
        self.orientation = o;
        self.screen.turtle_orientation = o;
        self.screen.draw_and_update();
        proof {
            assert(self@.screen =~= spec_turn(old(self)@, deg as int).screen);
            assert(self@ =~= spec_turn(old(self)@, deg as int));
        }
    }

    /// Turn left (counter-clockwise) by `deg` milli-degrees.
    pub fn left(&mut self, deg: i64)
        requires
            old(self).wf(),
            -DEG_LIMIT <= deg <= DEG_LIMIT,
        ensures
            final(self)@ == spec_turn(old(self)@, deg as int),
            final(self).wf(),
    {
        self.turn(deg);
    }

    /// Turn right (clockwise) by `deg` milli-degrees.
    pub fn right(&mut self, deg: i64)
        requires
            old(self).wf(),
            -DEG_LIMIT <= deg <= DEG_LIMIT,
        ensures
            final(self)@ == spec_turn(old(self)@, -(deg as int)),
            final(self).wf(),
    {
        self.turn(-deg);
    }

    /// Set the drawing color; new lines use it, existing ones keep theirs.
    /// Channels are milli-units in `[0, 1000]`; the alpha stays opaque.
    pub fn set_color(&mut self, red: i64, green: i64, blue: i64)
        requires
            old(self).wf(),
            0 <= red <= CHANNEL_MAX,
            0 <= green <= CHANNEL_MAX,
            0 <= blue <= CHANNEL_MAX,
        ensures
            final(self)@ == (TurtleModel {
                color: Color { red, green, blue, alpha: CHANNEL_MAX },
                screen: CanvasModel {
                    turtle_color: Color { red, green, blue, alpha: CHANNEL_MAX },
                    redraws: old(self)@.screen.redraws + 1,
                    ..old(self)@.screen
                },
                ..old(self)@
            }),
            final(self).wf(),
    {
        let color = Color { red, green, blue, alpha: CHANNEL_MAX };
        self.color = color;
        self.screen.turtle_color = color;
        self.screen.draw_and_update();
        proof {
            assert(self@.screen =~= (CanvasModel {
                turtle_color: color,
                redraws: old(self)@.screen.redraws + 1,
                ..old(self)@.screen
            }));
        }
    }

    /// Set the canvas background color, channels milli-units in
    /// `[0, 1000]`; the alpha stays opaque.
    pub fn set_background_color(&mut self, red: i64, green: i64, blue: i64)
        requires
            old(self).wf(),
            0 <= red <= CHANNEL_MAX,
            0 <= green <= CHANNEL_MAX,
            0 <= blue <= CHANNEL_MAX,
        ensures
            final(self)@ == (TurtleModel {
                screen: CanvasModel {
                    background_color: Color { red, green, blue, alpha: CHANNEL_MAX },
                    redraws: old(self)@.screen.redraws + 1,
                    ..old(self)@.screen
                },
                ..old(self)@
            }),
            final(self).wf(),
    {
        self.screen.background_color = Color { red, green, blue, alpha: CHANNEL_MAX };
        self.screen.draw_and_update();
        proof {
            assert(self@ =~= (TurtleModel {
                screen: CanvasModel {
                    background_color: Color { red, green, blue, alpha: CHANNEL_MAX },
                    redraws: old(self)@.screen.redraws + 1,
                    ..old(self)@.screen
                },
                ..old(self)@
            }));
        }
    }

    /// Move to the origin, then face north: exactly a `teleport(0, 0)`
    /// followed by a `set_orientation(0)`, two redraws in that order.
    pub fn home(&mut self)
        requires
            old(self).wf(),
        ensures
            final(self)@ == spec_set_orientation(spec_teleport(old(self)@, 0i64, 0i64), 0),
            final(self).wf(),
    {
        self.teleport(0, 0);
        self.set_orientation(0);
    }

    /// Hide the cursor marker.
    pub fn hide_turtle(&mut self)
        requires
            old(self).wf(),
        ensures
            final(self)@ == (TurtleModel {
                screen: CanvasModel {
                    turtle_hidden: true,
                    redraws: old(self)@.screen.redraws + 1,
                    ..old(self)@.screen
                },
                ..old(self)@
            }),
            final(self).wf(),
    {
        self.screen.turtle_hidden = true;
        self.screen.draw_and_update();
        proof {
            assert(self@ =~= (TurtleModel {
                screen: CanvasModel {
                    turtle_hidden: true,
                    redraws: old(self)@.screen.redraws + 1,
                    ..old(self)@.screen
                },
                ..old(self)@
            }));
        }
    }

    /// Show the cursor marker again.
    pub fn show(&mut self)
        requires
            old(self).wf(),
        ensures
            final(self)@ == (TurtleModel {
                screen: CanvasModel {
                    turtle_hidden: false,
                    redraws: old(self)@.screen.redraws + 1,
                    ..old(self)@.screen
                },
                ..old(self)@
            }),
            final(self).wf(),
    {
        self.screen.turtle_hidden = false;
        self.screen.draw_and_update();
        proof {
            assert(self@ =~= (TurtleModel {
                screen: CanvasModel {
                    turtle_hidden: false,
                    redraws: old(self)@.screen.redraws + 1,
                    ..old(self)@.screen
                },
                ..old(self)@
            }));
        }
    }

    /// Write `text` onto the canvas, anchored at the turtle's position with
    /// its orientation and color; the turtle does not move.
    pub fn write(&mut self, text: &str)
        requires
            old(self).wf(),
        ensures
            final(self)@ == (TurtleModel {
                screen: CanvasModel {
                    texts: old(self)@.screen.texts.push(
                        TextModel {
                            at: old(self)@.position,
                            orientation: old(self)@.orientation,
                            color: old(self)@.color,
                            text: text@,
                        },
                    ),
                    ..old(self)@.screen
                },
                ..old(self)@
            }),
            final(self).wf(),
    {
        self.screen.add_text(self.position, self.orientation, self.color, text);
        proof {
            assert(self.screen@.texts =~= old(self)@.screen.texts.push(
                TextModel {
                    at: old(self)@.position,
                    orientation: old(self)@.orientation,
                    color: old(self)@.color,
                    text: text@,
                },
            ));
            assert(self@ =~= (TurtleModel {
                screen: CanvasModel { texts: self.screen@.texts, ..old(self)@.screen },
                ..old(self)@
            }));
        }
    }

    /// Flood-fill the contiguous region containing the turtle's position
    /// with its current color.
    pub fn flood(&mut self)
        requires
            old(self).wf(),
        ensures
            final(self)@ == (TurtleModel {
                screen: CanvasModel {
                    fills: old(self)@.screen.fills.push(
                        FillSpot { at: old(self)@.position, color: old(self)@.color },
                    ),
                    ..old(self)@.screen
                },
                ..old(self)@
            }),
            final(self).wf(),
    {
        self.screen.floodfill(self.position, self.color);
        proof {
            assert(self@ =~= (TurtleModel {
                screen: CanvasModel {
                    fills: old(self)@.screen.fills.push(
                        FillSpot { at: old(self)@.position, color: old(self)@.color },
                    ),
                    ..old(self)@.screen
                },
                ..old(self)@
            }));
        }
    }

    /// Remove every drawn line, text and fill; position, orientation, pen
    /// and color stay as they are.
    pub fn clear(&mut self)
        requires
            old(self).wf(),
        ensures
            final(self)@ == (TurtleModel {
                screen: CanvasModel {
                    lines: Seq::empty(),
                    texts: Seq::empty(),
                    fills: Seq::empty(),
                    ..old(self)@.screen
                },
                ..old(self)@
            }),
            final(self).wf(),
    {
        self.screen.clear();
        proof {
            assert(self@ =~= (TurtleModel {
                screen: CanvasModel {
                    lines: Seq::empty(),
                    texts: Seq::empty(),
                    fills: Seq::empty(),
                    ..old(self)@.screen
                },
                ..old(self)@
            }));
        }
    }
}

/// The product of a milli-unit factor and a bounded length stays within the
/// range that truncating division brings back under the length bound.
proof fn lemma_milli_product_bound(s: int, len: int)
    requires
        -1000 <= s <= 1000,
        -LEN_LIMIT <= len <= LEN_LIMIT,
    ensures
        -1000 * (LEN_LIMIT as int) <= s * len <= 1000 * (LEN_LIMIT as int),
{
    assert(-1000 * (LEN_LIMIT as int) <= s * len <= 1000 * (LEN_LIMIT as int))
        by (nonlinear_arith)
        requires
            -1000 <= s <= 1000 && -(LEN_LIMIT as int) <= len <= LEN_LIMIT as int,
    ;
}

/// Truncating division by a thousand of a product bounded by a thousand
/// times `m` stays within `m`.
proof fn lemma_tdiv_milli_bound(a: int, m: int)
    requires
        0 <= m,
        -1000 * m <= a <= 1000 * m,
    ensures
        -m <= tdiv(a, 1000) <= m,
{
    if a >= 0 {
        vstd::arithmetic::div_mod::lemma_div_pos_is_pos(a, 1000);
        vstd::arithmetic::div_mod::lemma_div_is_ordered(a, 1000 * m, 1000);
        vstd::arithmetic::div_mod::lemma_div_by_multiple(m, 1000);
        assert(1000 * m == m * 1000);
    } else {
        vstd::arithmetic::div_mod::lemma_div_pos_is_pos(-a, 1000);
        vstd::arithmetic::div_mod::lemma_div_is_ordered(-a, 1000 * m, 1000);
        vstd::arithmetic::div_mod::lemma_div_by_multiple(m, 1000);
        assert(1000 * m == m * 1000);
    }
}

/// A whole number of turns, as milli-degrees.
pub open spec fn full_turns(m: int) -> int {
    (DEG_FULL as int) * m
}

/// The machine remainder differs from its argument by a whole number of
/// turns.
proof fn lemma_trem_shift(a: int)
    ensures
        exists|m: int| trem(a, DEG_FULL as int) == a + #[trigger] full_turns(m),
{
    let f = DEG_FULL as int;
    if a >= 0 {
        vstd::arithmetic::div_mod::lemma_fundamental_div_mod(a, f);
        assert(a % f == a + f * (-(a / f))) by {
            assert(a == f * (a / f) + a % f);
        }
        assert(trem(a, f) == a + full_turns(-(a / f)));
    } else {
        vstd::arithmetic::div_mod::lemma_fundamental_div_mod(-a, f);
        assert(-a == f * ((-a) / f) + (-a) % f);
        assert(trem(a, f) == -((-a) % f));
        assert(trem(a, f) == a + full_turns((-a) / f));
    }
}

/// Angles a whole number of turns apart have the same normal form.
proof fn lemma_norm_vanish(a: int, m: int)
    ensures
        norm_angle(a + full_turns(m)) == norm_angle(a),
{
    vstd::arithmetic::div_mod::lemma_mod_multiples_vanish(m, a, DEG_FULL as int);
}

/// Reducing by whole turns keeps the effective angle: the normal form of
/// the machine remainder is the normal form of the angle itself.
pub proof fn lemma_trem_keeps_angle(a: int)
    ensures
        norm_angle(trem(a, DEG_FULL as int)) == norm_angle(a),
{
    lemma_trem_shift(a);
    let m = choose|m: int| trem(a, DEG_FULL as int) == a + full_turns(m);
    lemma_norm_vanish(a, m);
}

/// A left turn followed by a right turn of the same angle restores the
/// orientation, modulo full turns: the effective orientation afterwards is
/// the effective orientation before.
pub proof fn lemma_left_right_restores(t: TurtleModel, deg: i64)
    requires
        turtle_wf(t),
        -DEG_LIMIT <= deg <= DEG_LIMIT,
    ensures
        norm_angle(spec_turn(spec_turn(t, deg as int), -(deg as int)).orientation as int)
            == norm_angle(t.orientation as int),
{
    let f = DEG_FULL as int;
    let o = t.orientation as int;
    let d = deg as int;
    let o1 = trem(o + d, f);
    let o2 = trem(o1 - d, f);
    assert(spec_turn(t, d).orientation == o1 as i64);
    assert(spec_turn(spec_turn(t, d), -d).orientation == o2 as i64);
    lemma_trem_keeps_angle(o1 - d);
    lemma_trem_shift(o + d);
    let m = choose|m: int| trem(o + d, f) == (o + d) + full_turns(m);
    assert(o1 - d == o + full_turns(m));
    lemma_norm_vanish(o, m);
    lemma_trem_keeps_angle(o + d);
}

/// Setting the orientation to an angle or to that angle plus a full turn
/// gives the same effective orientation; for angles measured forward from
/// north (nonnegative), even the stored representative is the same.
pub proof fn lemma_set_orientation_full_turn(t: TurtleModel, deg: int)
    ensures
        norm_angle(spec_set_orientation(t, deg + DEG_FULL as int).orientation as int)
            == norm_angle(spec_set_orientation(t, deg).orientation as int),
        deg >= 0 ==> spec_set_orientation(t, deg + DEG_FULL as int) == spec_set_orientation(
            t,
            deg,
        ),
{
    let f = DEG_FULL as int;
    lemma_trem_keeps_angle(deg + f);
    lemma_trem_keeps_angle(deg);
    lemma_norm_vanish(deg, 1);
    assert(full_turns(1) == f);
    if deg >= 0 {
        vstd::arithmetic::div_mod::lemma_mod_multiples_vanish(1, deg, f);
        assert(trem(deg + f, f) == (deg + f) % f);
        assert((f * 1 + deg) % f == deg % f);
        assert(spec_set_orientation(t, deg + f) =~= spec_set_orientation(t, deg));
    }
}

/// A move draws exactly when the pen is down: with the pen up it adds no
/// line to the canvas, with the pen down it adds exactly the one segment
/// from the old position to the target in the current color. Either way the
/// position and the displayed pose take the target, and nothing else of the
/// turtle changes.
pub proof fn lemma_move_draw_contract(t: TurtleModel, x: i64, y: i64)
    ensures
        !t.pen_down ==> spec_goto(t, x, y).screen.lines == t.screen.lines,
        !t.pen_down ==> spec_goto(t, x, y).screen.lines.len() == t.screen.lines.len(),
        t.pen_down ==> spec_goto(t, x, y).screen.lines == t.screen.lines.push(
            LineSegment { from: t.position, to: (x, y), color: t.color },
        ),
        t.pen_down ==> spec_goto(t, x, y).screen.lines.len() == t.screen.lines.len() + 1,
        spec_goto(t, x, y).position == (x, y),
        spec_goto(t, x, y).screen.turtle_position == (x, y),
        spec_goto(t, x, y).orientation == t.orientation,
        spec_goto(t, x, y).pen_down == t.pen_down,
        spec_goto(t, x, y).color == t.color,
{
}

/// A forward move of any length followed by a backward move of the same
/// length returns the turtle to its starting position exactly, as long as
/// the forward target lies on the canvas (no clamping happened).
pub proof fn lemma_forward_backward_returns(t: TurtleModel, len: i64)
    requires
        turtle_wf(t),
        -LEN_LIMIT <= len <= LEN_LIMIT,
        -(POS_LIMIT as int) <= t.position.0 + heading_vector(
            t.orientation as int,
            len as int,
        ).0 <= POS_LIMIT as int,
        -(POS_LIMIT as int) <= t.position.1 + heading_vector(
            t.orientation as int,
            len as int,
        ).1 <= POS_LIMIT as int,
    ensures
        spec_backward(spec_forward(t, len), len).position == t.position,
{
    let d = heading_vector(t.orientation as int, len as int);
    let t1 = spec_forward(t, len);
    assert(t1.position.0 == t.position.0 + d.0 && t1.position.1 == t.position.1 + d.1);
    assert(t1.orientation == t.orientation);
    assert(spec_backward(t1, len).position.0 == clamp_coord(t1.position.0 - d.0));
    assert(t1.position.0 - d.0 == t.position.0);
    assert(t1.position.1 - d.1 == t.position.1);
}

} // verus!
