use ratzilla::cell::{Color, Rect};
use ratzilla::merger::RowColorOptimizer;

fn rect(x: u16, width: u16) -> Rect {
    Rect { x, y: 0, width, height: 1 }
}

#[test]
fn row_span_merges_equal_neighbours() {
    let a = Color::Red;
    let b = Color::Blue;
    let mut merger = RowColorOptimizer::new();
    let mut emitted = Vec::new();
    for (x, color) in [a, a, b, b, a].into_iter().enumerate() {
        if let Some(region) = merger.process_color((x as u16, 0), color) {
            emitted.push(region);
        }
    }
    if let Some(region) = merger.flush() {
        emitted.push(region);
    }
    assert_eq!(emitted, vec![(rect(0, 2), a), (rect(2, 2), b), (rect(4, 1), a)]);
}

#[test]
fn row_span_never_bridges_clean_cell() {
    let a = Color::Green;
    let mut merger = RowColorOptimizer::new();
    let mut emitted = Vec::new();
    if let Some(region) = merger.process_color((0, 0), a) {
        emitted.push(region);
    }
    if let Some(region) = merger.flush() {
        emitted.push(region);
    }
    if let Some(region) = merger.process_color((2, 0), a) {
        emitted.push(region);
    }
    if let Some(region) = merger.flush() {
        emitted.push(region);
    }
    assert_eq!(emitted, vec![(rect(0, 1), a), (rect(2, 1), a)]);
}

#[test]
fn flush_without_pending_region_is_empty() {
    let mut merger = RowColorOptimizer::new();
    assert_eq!(merger.flush(), None);
    merger.process_color((3, 7), Color::Indexed(5));
    assert_eq!(merger.flush(), Some((Rect { x: 3, y: 7, width: 1, height: 1 }, Color::Indexed(5))));
    assert_eq!(merger.flush(), None);
}
