use ratzilla::canvas::{actual_bg_color, actual_fg_color, grid_size_for_pixels, resolve_color, CanvasBackend, CanvasOp};
use ratzilla::cell::{Cell, Color, Position, Rect, MOD_REVERSED, MOD_UNDERLINED};
use ratzilla::cursor::CursorShape;

fn flush(backend: &mut CanvasBackend) -> Vec<CanvasOp> {
    let mut seen = Vec::new();
    assert!(backend.flush(|ops, _| {
        seen = ops.clone();
        true
    }));
    seen
}

fn cell(symbol: &str, fg: Color, bg: Color, modifier: u16) -> Cell {
    Cell::new(symbol, fg, bg, modifier)
}

#[test]
fn first_flush_repaints_everything() {
    let mut backend = CanvasBackend::new_with_grid(2, 1, false);
    let ops = flush(&mut backend);
    assert_eq!(
        ops,
        vec![
            CanvasOp::ClearAll,
            CanvasOp::FillRect(Rect { x: 0, y: 0, width: 2, height: 1 }, Color::Black),
        ]
    );
    assert!(backend.initialized);
}

#[test]
fn second_flush_without_changes_draws_nothing() {
    let mut backend = CanvasBackend::new_with_grid(4, 3, false);
    backend.draw(&vec![(1, 1, cell("a", Color::Red, Color::Blue, 0))]);
    flush(&mut backend);
    assert_eq!(flush(&mut backend), vec![]);
    assert_eq!(flush(&mut backend), vec![]);
}

#[test]
fn flush_repaints_only_changed_cells() {
    let mut backend = CanvasBackend::new_with_grid(5, 2, false);
    flush(&mut backend);
    backend.draw(&vec![
        (0, 0, cell("a", Color::Red, Color::Blue, 0)),
        (1, 0, cell("b", Color::Red, Color::Blue, 0)),
        (3, 0, cell("c", Color::Green, Color::Blue, 0)),
        (4, 1, cell("d", Color::Reset, Color::Yellow, 0)),
    ]);
    let ops = flush(&mut backend);
    assert_eq!(
        ops,
        vec![
            CanvasOp::FillRect(Rect { x: 0, y: 0, width: 2, height: 1 }, Color::Blue),
            CanvasOp::FillRect(Rect { x: 3, y: 0, width: 1, height: 1 }, Color::Blue),
            CanvasOp::FillRect(Rect { x: 4, y: 1, width: 1, height: 1 }, Color::Yellow),
            CanvasOp::TextColor(Color::Red),
            CanvasOp::Text(0, 0),
            CanvasOp::Text(1, 0),
            CanvasOp::TextColor(Color::Green),
            CanvasOp::Text(3, 0),
            CanvasOp::TextColor(Color::White),
            CanvasOp::Text(4, 1),
        ]
    );
}

#[test]
fn non_ascii_symbols_are_clipped() {
    let mut backend = CanvasBackend::new_with_grid(3, 1, false);
    flush(&mut backend);
    backend.draw(&vec![(0, 0, cell("é", Color::Red, Color::Reset, 0)), (1, 0, cell("e", Color::Red, Color::Reset, 0))]);
    let ops = flush(&mut backend);
    assert_eq!(
        ops,
        vec![
            CanvasOp::FillRect(Rect { x: 0, y: 0, width: 2, height: 1 }, Color::Black),
            CanvasOp::ClipCell(0, 0, Color::Red),
            CanvasOp::Text(0, 0),
            CanvasOp::TextColor(Color::Red),
            CanvasOp::Text(1, 0),
        ]
    );
}

#[test]
fn always_clip_clips_ascii_too() {
    let mut backend = CanvasBackend::new_with_grid(1, 1, true);
    backend.draw(&vec![(0, 0, cell("x", Color::Cyan, Color::Reset, 0))]);
    let ops = flush(&mut backend);
    assert_eq!(
        ops,
        vec![
            CanvasOp::ClearAll,
            CanvasOp::FillRect(Rect { x: 0, y: 0, width: 1, height: 1 }, Color::Black),
            CanvasOp::ClipCell(0, 0, Color::Cyan),
            CanvasOp::Text(0, 0),
        ]
    );
}

#[test]
fn reversed_cells_swap_colors() {
    let c = cell("r", Color::Red, Color::Blue, MOD_REVERSED);
    assert_eq!(actual_fg_color(&c), Color::Blue);
    assert_eq!(actual_bg_color(&c), Color::Red);
    assert_eq!(resolve_color(Color::Reset, Color::Gray), Color::Gray);
    assert_eq!(resolve_color(Color::Red, Color::Gray), Color::Red);
}

#[test]
fn cursor_shape_marks_and_unmarks_cell() {
    let mut backend = CanvasBackend::new_with_grid(3, 2, false).set_cursor_shape(CursorShape::SteadyUnderScore);
    backend.set_cursor_position(Position { x: 1, y: 1 });
    backend.draw(&vec![]);
    assert_eq!(backend.cell(1, 1).modifier, MOD_UNDERLINED);
    flush(&mut backend);
    backend.set_cursor_position(Position { x: 2, y: 0 });
    assert_eq!(backend.cell(1, 1).modifier, 0);
    backend.hide_cursor();
    assert_eq!(backend.get_cursor_position(), Position { x: 0, y: 0 });
}

#[test]
fn cursor_mark_drawn_on_underlined_cell() {
    let mut backend = CanvasBackend::new_with_grid(2, 1, false);
    flush(&mut backend);
    backend.set_cursor_position(Position { x: 1, y: 0 });
    backend.draw(&vec![(1, 0, cell(" ", Color::Reset, Color::Reset, MOD_UNDERLINED))]);
    let ops = flush(&mut backend);
    assert_eq!(
        ops,
        vec![
            CanvasOp::FillRect(Rect { x: 1, y: 0, width: 1, height: 1 }, Color::Black),
            CanvasOp::CursorMark(1, 0),
        ]
    );
}

#[test]
fn debug_mode_outlines_every_cell() {
    let mut backend = CanvasBackend::new_with_grid(2, 1, false);
    flush(&mut backend);
    backend.set_debug_mode(Some("#666".to_string()));
    backend.draw(&vec![(0, 0, cell(" ", Color::Reset, Color::Red, 0))]);
    let ops = flush(&mut backend);
    assert_eq!(
        ops,
        vec![
            CanvasOp::ClearAll,
            CanvasOp::FillRect(Rect { x: 0, y: 0, width: 1, height: 1 }, Color::Red),
            CanvasOp::FillRect(Rect { x: 1, y: 0, width: 1, height: 1 }, Color::Black),
            CanvasOp::Outline(0, 0),
            CanvasOp::Outline(1, 0),
        ]
    );
    assert_eq!(flush(&mut backend), vec![]);
}

#[test]
fn canvas_size_and_clear() {
    let mut backend = CanvasBackend::new_with_size(200, 95);
    assert_eq!(grid_size_for_pixels(200, 95), (20, 5));
    assert_eq!(backend.size(), (19, 4));
    backend.draw(&vec![(3, 2, cell("z", Color::Red, Color::Reset, 0))]);
    backend.clear();
    assert_eq!(backend.cell(3, 2).symbol, " ");
}

#[test]
fn failed_paint_keeps_previous_grid() {
    let mut backend = CanvasBackend::new_with_grid(2, 1, false);
    flush(&mut backend);
    backend.draw(&vec![(1, 0, cell("k", Color::Red, Color::Reset, 0))]);
    let mut symbol = String::new();
    let ok = backend.flush(|ops, grid| {
        if let Some(CanvasOp::Text(x, y)) = ops.iter().find(|op| matches!(op, CanvasOp::Text(..))) {
            symbol = grid.cells[*y as usize * grid.width + *x as usize].symbol.clone();
        }
        false
    });
    assert!(!ok);
    assert_eq!(symbol, "k");
    assert_eq!(
        flush(&mut backend),
        vec![
            CanvasOp::FillRect(Rect { x: 1, y: 0, width: 1, height: 1 }, Color::Black),
            CanvasOp::TextColor(Color::Red),
            CanvasOp::Text(1, 0),
        ]
    );
    assert_eq!(flush(&mut backend), vec![]);
}
