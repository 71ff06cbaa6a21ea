use ratzilla::cell::{Cell, Color, Position};
use ratzilla::cursor::CursorShape;
use ratzilla::dom::{DomBackend, DomBackendOptions, DomOp};

#[test]
fn grid_id_defaults_and_suffix() {
    assert_eq!(DomBackendOptions::new(None, CursorShape::SteadyBlock).grid_id(), "grid");
    let options = DomBackendOptions::new(Some("term".to_string()), CursorShape::SteadyUnderScore);
    assert_eq!(options.grid_id(), "term_ratzilla_grid");
    assert_eq!(*options.cursor_shape(), CursorShape::SteadyUnderScore);
}

#[test]
fn css_attribute_per_shape() {
    let block = CursorShape::SteadyBlock.get_css_attribute();
    assert_eq!((block.field, block.value), ("text-decoration", Some("none")));
    let under = CursorShape::SteadyUnderScore.get_css_attribute();
    assert_eq!((under.field, under.value), ("text-decoration", Some("underline")));
    let none = CursorShape::NoShape.get_css_attribute();
    assert_eq!((none.field, none.value), ("text-decoration", None));
    assert_eq!(CursorShape::default(), CursorShape::SteadyBlock);
}

#[test]
fn cursor_show_and_conceal_bits() {
    assert_eq!(CursorShape::SteadyBlock.show(0x01), 0x41);
    assert_eq!(CursorShape::SteadyBlock.conceal(0x41), 0x01);
    assert_eq!(CursorShape::SteadyUnderScore.show(0x01), 0x09);
    assert_eq!(CursorShape::NoShape.show(0x01), 0x01);
}

#[test]
fn draw_populates_once_and_blanks_after_wide_glyph() {
    let mut backend = DomBackend::new(3, 2, DomBackendOptions::default());
    let content = vec![
        (0, 0, Cell::new("你", Color::Reset, Color::Reset, 0)),
        (2, 1, Cell::new("好", Color::Reset, Color::Reset, 0)),
        (1, 1, Cell::new("a", Color::Reset, Color::Reset, 0)),
    ];
    let ops = backend.draw(&content);
    assert_eq!(
        ops,
        vec![
            DomOp::Populate { width: 3, height: 2 },
            DomOp::Write { element: 0, item: 0 },
            DomOp::Blank { element: 1 },
            DomOp::Write { element: 5, item: 1 },
            DomOp::Write { element: 4, item: 2 },
        ]
    );
    assert_eq!(backend.draw(&vec![]), vec![]);
    backend.on_resize(4, 4);
    assert_eq!(backend.draw(&vec![]), vec![DomOp::Populate { width: 4, height: 4 }]);
}

#[test]
fn cursor_css_moves_with_cursor() {
    let mut backend = DomBackend::new(4, 3, DomBackendOptions::default()).set_cursor_shape(CursorShape::SteadyUnderScore);
    backend.draw(&vec![]);
    backend.set_cursor_position(Position { x: 1, y: 1 });
    assert_eq!(backend.show_cursor(), vec![DomOp::Cursor { element: 5, shape: CursorShape::SteadyUnderScore }]);
    backend.set_cursor_position(Position { x: 3, y: 2 });
    assert_eq!(
        backend.show_cursor(),
        vec![
            DomOp::Cursor { element: 5, shape: CursorShape::NoShape },
            DomOp::Cursor { element: 11, shape: CursorShape::SteadyUnderScore },
        ]
    );
    assert_eq!(backend.hide_cursor(), vec![DomOp::Cursor { element: 11, shape: CursorShape::NoShape }]);
    assert_eq!(backend.get_cursor_position(), Position { x: 3, y: 2 });
    assert_eq!(backend.size(), (3, 2));
}

#[test]
fn clear_blanks_every_element() {
    let backend = DomBackend::new(2, 2, DomBackendOptions::default());
    assert_eq!(
        backend.clear(),
        vec![
            DomOp::Blank { element: 0 },
            DomOp::Blank { element: 1 },
            DomOp::Blank { element: 2 },
            DomOp::Blank { element: 3 },
        ]
    );
}
