use drawing_board::controller::{CanvasController, Layout};
use drawing_board::style::{width_from_input, StrokeStyle, MAX_WIDTH, MIN_WIDTH};
use drawing_board::surface::DrawCommand;

fn layout(viewport_width: u32, viewport_height: u32, left: i32, top: i32) -> Layout {
    Layout {
        viewport_width,
        viewport_height,
        offset_left: left,
        offset_top: top,
        offset_width: 0,
        offset_height: 0,
    }
}

fn count_strokes(cmds: &[DrawCommand]) -> usize {
    cmds.iter().filter(|c| **c == DrawCommand::Stroke).count()
}

#[test]
fn resize_subtracts_offsets() {
    let mut c = CanvasController::new(800, 600);
    let cmds = c.on_viewport_resize(&layout(800, 600, 10, 20));
    assert_eq!(
        cmds,
        vec![DrawCommand::SetCanvasWidth(790), DrawCommand::SetCanvasHeight(580)]
    );
    assert_eq!(c.surface_size(), (790, 580));
}

#[test]
fn resize_twice_assigns_nothing_the_second_time() {
    let mut c = CanvasController::new(800, 600);
    c.on_viewport_resize(&layout(800, 600, 10, 20));
    let again = c.on_viewport_resize(&layout(800, 600, 10, 20));
    assert!(again.is_empty());
    assert_eq!(c.surface_size(), (790, 580));
}

#[test]
fn resize_assigns_only_the_changed_axis() {
    let mut c = CanvasController::new(790, 600);
    let cmds = c.on_viewport_resize(&layout(800, 600, 10, 20));
    assert_eq!(cmds, vec![DrawCommand::SetCanvasHeight(580)]);
    let mut d = CanvasController::new(800, 580);
    let cmds = d.on_viewport_resize(&layout(800, 600, 10, 20));
    assert_eq!(cmds, vec![DrawCommand::SetCanvasWidth(790)]);
}

#[test]
fn resize_never_goes_below_zero() {
    let mut c = CanvasController::new(800, 600);
    c.on_viewport_resize(&layout(100, 50, 150, 60));
    assert_eq!(c.surface_size(), (0, 0));
    c.on_viewport_resize(&layout(100, 50, -5, -10));
    assert_eq!(c.surface_size(), (105, 60));
}

#[test]
fn start_draws_nothing() {
    let mut c = CanvasController::new(800, 600);
    let cmds = c.on_stroke_start(100, 100, &layout(800, 600, 10, 20));
    assert_eq!(count_strokes(&cmds), 0);
    assert!(c.session().is_painting);
}

#[test]
fn start_anchor_subtracts_surface_size() {
    let mut c = CanvasController::new(800, 600);
    let l = Layout {
        viewport_width: 800,
        viewport_height: 600,
        offset_left: 0,
        offset_top: 0,
        offset_width: 300,
        offset_height: 40,
    };
    c.on_stroke_start(100, 100, &l);
    let s = c.session();
    assert_eq!((s.origin_x, s.origin_y), (-200, 60));
}

#[test]
fn move_without_start_is_inert() {
    let mut c = CanvasController::new(800, 600);
    let cmds = c.on_stroke_move(50, 50, 0, 0);
    assert!(cmds.is_empty());
    let s = c.session();
    assert!(!s.is_painting);
    assert_eq!((s.origin_x, s.origin_y), (0, 0));
}

#[test]
fn move_after_end_is_inert() {
    let mut c = CanvasController::new(800, 600);
    c.on_stroke_start(100, 100, &layout(800, 600, 0, 0));
    assert_eq!(count_strokes(&c.on_stroke_move(110, 100, 0, 0)), 1);
    c.on_stroke_end();
    assert!(c.on_stroke_move(110, 100, 0, 0).is_empty());
    assert!(!c.session().is_painting);
}

#[test]
fn move_extends_path_in_surface_coordinates() {
    let mut c = CanvasController::new(790, 580);
    c.on_stroke_start(100, 100, &layout(800, 600, 10, 20));
    let cmds = c.on_stroke_move(110, 100, 10, 20);
    assert_eq!(
        cmds,
        vec![
            DrawCommand::SetStrokeStyle("#000000".to_string()),
            DrawCommand::SetLineWidth(1),
            DrawCommand::SetLineCapRound,
            DrawCommand::LineTo(100, 80),
            DrawCommand::Stroke,
        ]
    );
}

#[test]
fn end_to_end_stroke() {
    let mut c = CanvasController::new(800, 600);
    let l = layout(800, 600, 0, 0);
    let mut during = c.on_stroke_start(100, 100, &l);
    during.extend(c.on_stroke_move(110, 100, 0, 0));
    during.extend(c.on_stroke_move(110, 110, 0, 0));
    assert_eq!(count_strokes(&during), 2);
    let points: Vec<(i64, i64)> = during
        .iter()
        .filter_map(|cmd| match cmd {
            DrawCommand::LineTo(x, y) => Some((*x, *y)),
            _ => None,
        })
        .collect();
    assert_eq!(points, vec![(110, 100), (110, 110)]);
    let end = c.on_stroke_end();
    assert_eq!(end, vec![DrawCommand::Stroke, DrawCommand::BeginPath]);
    assert!(!c.session().is_painting);
    assert_eq!((c.session().origin_x, c.session().origin_y), (100, 100));
}

#[test]
fn width_input_clamps_to_range() {
    assert_eq!(width_from_input("25"), Some(20));
    assert_eq!(width_from_input("0"), Some(1));
    assert_eq!(width_from_input("7"), Some(7));
    assert_eq!(width_from_input("+12"), Some(12));
    assert_eq!(width_from_input("020"), Some(20));
    assert_eq!(width_from_input("99999999999999999999"), Some(20));
    assert_eq!(width_from_input(""), None);
    assert_eq!(width_from_input("+"), None);
    assert_eq!(width_from_input("-3"), None);
    assert_eq!(width_from_input("1.5"), None);
    assert_eq!(width_from_input("abc"), None);
}

#[test]
fn width_change_reaches_rendering_clamped() {
    let mut c = CanvasController::new(800, 600);
    c.on_width_change("25");
    assert_eq!(c.style().width_px(), MAX_WIDTH);
    c.on_stroke_start(0, 0, &layout(800, 600, 0, 0));
    let cmds = c.on_stroke_move(5, 5, 0, 0);
    assert_eq!(cmds[1], DrawCommand::SetLineWidth(20));
    c.on_width_change("0");
    assert_eq!(c.style().width_px(), MIN_WIDTH);
    c.on_width_change("not a number");
    assert_eq!(c.style().width_px(), MIN_WIDTH);
    c.on_width_change("13");
    assert_eq!(c.style().width_px(), 13);
}

#[test]
fn color_change_reaches_rendering() {
    let mut c = CanvasController::new(800, 600);
    c.on_color_change("#ff0000".to_string());
    assert_eq!(c.style().color(), "#ff0000");
    c.on_stroke_start(0, 0, &layout(800, 600, 0, 0));
    let cmds = c.on_stroke_move(5, 5, 0, 0);
    assert_eq!(cmds[0], DrawCommand::SetStrokeStyle("#ff0000".to_string()));
}

#[test]
fn default_pen_is_black_and_thin() {
    let s = StrokeStyle::new();
    assert_eq!(s.color(), "#000000");
    assert_eq!(s.width_px(), 1);
}

#[test]
fn clear_covers_whole_surface() {
    let mut c = CanvasController::new(800, 600);
    c.on_color_change("#00ff00".to_string());
    c.on_width_change("9");
    c.on_stroke_start(10, 10, &layout(800, 600, 10, 20));
    c.on_stroke_move(30, 40, 10, 20);
    c.on_stroke_end();
    let cmds = c.on_clear();
    assert_eq!(cmds, vec![DrawCommand::ClearRect(790, 580)]);
    assert_eq!(c.style().width_px(), 9);
    assert!(!c.session().is_painting);
}

#[test]
fn stroke_without_moves_lays_no_path() {
    let mut c = CanvasController::new(640, 480);
    let mut all = c.on_stroke_start(20, 30, &layout(800, 600, 10, 20));
    assert_eq!(
        all,
        vec![DrawCommand::SetCanvasWidth(790), DrawCommand::SetCanvasHeight(580)]
    );
    all.extend(c.on_stroke_end());
    assert!(!all.iter().any(|cmd| matches!(cmd, DrawCommand::LineTo(_, _))));
    assert_eq!(count_strokes(&all), 1);
}
