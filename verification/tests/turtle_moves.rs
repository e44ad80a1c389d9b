//! The turtle state machine: geometry, pen discipline and the canvas
//! record, all in milli-units (a thousand steps per unit or degree).

use turtle_core::canvas::{Canvas, Color, LineSegment};
use turtle_core::turtle::Turtle;

fn fresh_turtle() -> Turtle {
    Turtle::new(Canvas::new())
}

fn black() -> Color {
    Color { red: 0, green: 0, blue: 0, alpha: 1000 }
}

#[test]
fn forward_north_moves_up_and_draws() {
    // the scenario: at the origin heading north, forward(100) lands on
    // (0, 100) and draws exactly that segment
    let mut t = fresh_turtle();
    t.forward(100_000);
    assert_eq!(t.get_position(), (0, 100_000));
    let screen = t.get_screen();
    assert_eq!(screen.lines.len(), 1);
    assert_eq!(
        screen.lines[0],
        LineSegment { from: (0, 0), to: (0, 100_000), color: black() }
    );
}

#[test]
fn right_angle_then_forward_moves_east() {
    // continuing the scenario: right(90) makes the orientation -90, and
    // forward(50) walks along (+50, 0)
    let mut t = fresh_turtle();
    t.forward(100_000);
    t.right(90_000);
    assert_eq!(t.get_orientation(), -90_000);
    t.forward(50_000);
    assert_eq!(t.get_position(), (50_000, 100_000));
    assert_eq!(t.get_screen().lines.len(), 2);
}

#[test]
fn forward_then_backward_returns_home() {
    let mut t = fresh_turtle();
    t.set_orientation(30_000);
    t.forward(100_000);
    t.backward(100_000);
    assert_eq!(t.get_position(), (0, 0));
}

#[test]
fn forward_then_backward_returns_from_anywhere() {
    let mut t = fresh_turtle();
    t.teleport(12_345, -67_890);
    t.set_orientation(-123_456);
    t.forward(77_777);
    t.backward(77_777);
    assert_eq!(t.get_position(), (12_345, -67_890));
}

#[test]
fn left_then_right_restores_orientation() {
    let mut t = fresh_turtle();
    t.set_orientation(40_000);
    t.left(37_000);
    t.right(37_000);
    assert_eq!(t.get_orientation(), 40_000);
}

#[test]
fn left_then_right_restores_orientation_across_the_wrap() {
    let mut t = fresh_turtle();
    t.set_orientation(350_000);
    t.left(20_000);
    assert_eq!(t.get_orientation(), 10_000);
    t.right(20_000);
    // the representative may differ by a full turn; the effective angle
    // does not
    let o = t.get_orientation();
    assert_eq!(((o % 360_000) + 360_000) % 360_000, 350_000);
}

#[test]
fn set_orientation_wraps_whole_turns() {
    let mut a = fresh_turtle();
    let mut b = fresh_turtle();
    a.set_orientation(370_000);
    b.set_orientation(10_000);
    assert_eq!(a.get_orientation(), b.get_orientation());
    assert_eq!(a.get_orientation(), 10_000);
}

#[test]
fn set_orientation_keeps_the_sign_of_its_argument() {
    let mut t = fresh_turtle();
    t.set_orientation(-90_000);
    assert_eq!(t.get_orientation(), -90_000);
}

#[test]
fn pen_up_moves_draw_nothing() {
    let mut t = fresh_turtle();
    t.pen_up();
    t.forward(50_000);
    t.teleport(10_000, 10_000);
    t.backward(5_000);
    assert_eq!(t.get_screen().lines.len(), 0);
}

#[test]
fn pen_down_moves_draw_exactly_one_line_each() {
    let mut t = fresh_turtle();
    t.forward(10_000);
    t.teleport(0, 0);
    t.backward(10_000);
    assert_eq!(t.get_screen().lines.len(), 3);
}

#[test]
fn teleport_draws_when_the_pen_is_down() {
    let mut t = fresh_turtle();
    t.teleport(30_000, 40_000);
    assert_eq!(t.get_position(), (30_000, 40_000));
    let screen = t.get_screen();
    assert_eq!(screen.lines.len(), 1);
    assert_eq!(
        screen.lines[0],
        LineSegment { from: (0, 0), to: (30_000, 40_000), color: black() }
    );
}

#[test]
fn teleport_keeps_the_orientation() {
    let mut t = fresh_turtle();
    t.set_orientation(45_000);
    t.teleport(-1_000, 2_000);
    assert_eq!(t.get_orientation(), 45_000);
}

#[test]
fn home_returns_to_origin_facing_north() {
    let mut t = fresh_turtle();
    t.teleport(5_000, 6_000);
    t.left(90_000);
    t.home();
    assert_eq!(t.get_position(), (0, 0));
    assert_eq!(t.get_orientation(), 0);
}

#[test]
fn set_color_colors_later_lines_only() {
    let mut t = fresh_turtle();
    t.forward(1_000);
    t.set_color(1000, 0, 0);
    t.forward(1_000);
    let screen = t.get_screen();
    assert_eq!(screen.lines[0].color, black());
    assert_eq!(
        screen.lines[1].color,
        Color { red: 1000, green: 0, blue: 0, alpha: 1000 }
    );
    assert_eq!(screen.turtle_color, Color { red: 1000, green: 0, blue: 0, alpha: 1000 });
}

#[test]
fn set_background_color_reaches_the_canvas() {
    let mut t = fresh_turtle();
    t.set_background_color(0, 1000, 0);
    assert_eq!(
        t.get_screen().background_color,
        Color { red: 0, green: 1000, blue: 0, alpha: 1000 }
    );
}

#[test]
fn hide_and_show_toggle_the_marker() {
    let mut t = fresh_turtle();
    assert!(!t.is_hidden());
    t.hide_turtle();
    assert!(t.is_hidden());
    t.show();
    assert!(!t.is_hidden());
}

#[test]
fn hidden_turtle_still_moves_and_draws() {
    let mut t = fresh_turtle();
    t.hide_turtle();
    t.forward(10_000);
    assert_eq!(t.get_position(), (0, 10_000));
    let screen = t.get_screen();
    assert_eq!(screen.lines.len(), 1);
    assert_eq!(screen.turtle_position, (0, 10_000));
}

#[test]
fn write_records_text_at_the_turtle() {
    let mut t = fresh_turtle();
    t.teleport(1_000, 2_000);
    t.write("hello");
    let screen = t.get_screen();
    assert_eq!(screen.texts.len(), 1);
    assert_eq!(screen.texts[0].at, (1_000, 2_000));
    assert_eq!(screen.texts[0].text, "hello");
}

#[test]
fn flood_records_a_fill_at_the_turtle() {
    let mut t = fresh_turtle();
    t.teleport(3_000, 4_000);
    t.flood();
    let screen = t.get_screen();
    assert_eq!(screen.fills.len(), 1);
    assert_eq!(screen.fills[0].at, (3_000, 4_000));
    assert_eq!(screen.fills[0].color, black());
}

#[test]
fn clear_removes_drawings_but_keeps_the_pose() {
    let mut t = fresh_turtle();
    t.forward(10_000);
    t.write("x");
    t.flood();
    t.set_orientation(45_000);
    t.clear();
    assert_eq!(t.get_position(), (0, 10_000));
    assert_eq!(t.get_orientation(), 45_000);
    let screen = t.get_screen();
    assert_eq!(screen.lines.len(), 0);
    assert_eq!(screen.texts.len(), 0);
    assert_eq!(screen.fills.len(), 0);
}

#[test]
fn canvas_pose_follows_the_turtle() {
    let mut t = fresh_turtle();
    t.forward(25_000);
    t.set_orientation(90_000);
    let screen = t.get_screen();
    assert_eq!(screen.turtle_position, (0, 25_000));
    assert_eq!(screen.turtle_orientation, 90_000);
}

#[test]
fn heading_is_exact_at_the_cardinals() {
    // one unit along each cardinal heading
    let headings = [
        (0, (0, 1_000)),
        (90_000, (-1_000, 0)),
        (180_000, (0, -1_000)),
        (270_000, (1_000, 0)),
    ];
    for (deg, want) in headings {
        let mut t = fresh_turtle();
        t.set_orientation(deg);
        t.forward(1_000);
        assert_eq!(t.get_position(), want, "heading {}", deg);
    }
}

#[test]
fn thirty_degrees_has_exact_sine() {
    // sin 30 is exactly one half under the rational sine
    let mut t = fresh_turtle();
    t.set_orientation(30_000);
    t.forward(100_000);
    let (x, _) = t.get_position();
    assert_eq!(x, -50_000);
}
