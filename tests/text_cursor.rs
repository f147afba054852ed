use egui_winit::geometry::{pos2, Color32, Rect, Stroke};
use egui_winit::style::{Selection, TextCursorStyle, Visuals};
use egui_winit::text_cursor::{paint_cursor_end, paint_text_cursor, Painter, Shape};

const INK: Color32 = Color32 { r: 10, g: 20, b: 30, a: 255 };

fn visuals(blink: bool, on: u32, off: u32) -> Visuals {
    Visuals {
        selection: Selection { bg_fill: INK, stroke: Stroke { width: 1, color: INK } },
        text_cursor: TextCursorStyle {
            stroke: Stroke { width: 2, color: INK },
            preview: false,
            blink,
            on_duration: on,
            off_duration: off,
        },
    }
}

fn cursor_rect() -> Rect {
    Rect::from_min_max(pos2(10, 5), pos2(14, 25))
}

fn expected_line() -> Shape {
    Shape::LineSegment { points: [pos2(12, 5), pos2(12, 25)], stroke: Stroke { width: 2, color: INK } }
}

#[test]
fn cursor_end_is_vertical_center_line() {
    let mut painter = Painter::new();
    paint_cursor_end(&mut painter, &visuals(true, 500, 500), cursor_rect());
    assert_eq!(painter.shapes, vec![expected_line()]);
}

#[test]
fn cursor_end_rounds_center_down() {
    let mut painter = Painter::new();
    paint_cursor_end(&mut painter, &visuals(false, 0, 0), Rect::from_min_max(pos2(-3, 0), pos2(0, 8)));
    let stroke = Stroke { width: 2, color: INK };
    assert_eq!(painter.shapes, vec![Shape::LineSegment { points: [pos2(-2, 0), pos2(-2, 8)], stroke }]);
}

#[test]
fn blink_past_on_period_is_hidden() {
    let mut painter = Painter::new();
    let wake = paint_text_cursor(&visuals(true, 500, 500), &mut painter, cursor_rect(), 700);
    assert_eq!(painter.shapes, vec![]);
    assert_eq!(wake, Some(300));
}

#[test]
fn blink_same_one_cycle_later() {
    let mut painter = Painter::new();
    let wake = paint_text_cursor(&visuals(true, 500, 500), &mut painter, cursor_rect(), 200);
    assert_eq!(painter.shapes, vec![expected_line()]);
    assert_eq!(wake, Some(300));
    let mut painter = Painter::new();
    let wake = paint_text_cursor(&visuals(true, 500, 500), &mut painter, cursor_rect(), 1200);
    assert_eq!(painter.shapes, vec![expected_line()]);
    assert_eq!(wake, Some(300));
}

#[test]
fn blink_hidden_phase() {
    let mut painter = Painter::new();
    let wake = paint_text_cursor(&visuals(true, 400, 600), &mut painter, cursor_rect(), 2450);
    assert!(painter.shapes.is_empty());
    assert_eq!(wake, Some(550));
}

#[test]
fn blink_disabled_always_draws() {
    for t in [0u64, 499, 500, 700, 1_000_000] {
        let mut painter = Painter::new();
        let wake = paint_text_cursor(&visuals(false, 500, 500), &mut painter, cursor_rect(), t);
        assert_eq!(painter.shapes, vec![expected_line()]);
        assert_eq!(wake, None);
    }
}
