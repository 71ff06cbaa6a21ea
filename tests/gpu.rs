use ratzilla::cell::{Cell, Color, Position, MOD_BOLD, MOD_CROSSED_OUT, MOD_HYPERLINK, MOD_ITALIC, MOD_REVERSED, MOD_UNDERLINED};
use ratzilla::cursor::CursorShape;
use ratzilla::event::{MouseButton, MouseEventKind};
use ratzilla::gpu::{
    cell_data, into_glyph_bits, resolve_fg_bg_colors, to_rgb, WebGl2Backend, GLYPH_BOLD, GLYPH_ITALIC,
    GLYPH_STRIKETHROUGH, GLYPH_UNDERLINE,
};

#[test]
fn test_font_style() {
    [
        (GLYPH_BOLD, MOD_BOLD),
        (GLYPH_ITALIC, MOD_ITALIC),
        (GLYPH_BOLD | GLYPH_ITALIC, MOD_BOLD | MOD_ITALIC),
    ]
    .into_iter()
    .map(|(style, modifier)| (style, into_glyph_bits(modifier)))
    .for_each(|(expected, actual)| assert_eq!(expected, actual));
}

#[test]
fn test_glyph_effect() {
    [(GLYPH_UNDERLINE, MOD_UNDERLINED), (GLYPH_STRIKETHROUGH, MOD_CROSSED_OUT)]
        .into_iter()
        .map(|(effect, modifier)| (effect, into_glyph_bits(modifier)))
        .for_each(|(expected, actual)| assert_eq!(expected, actual));
}

#[test]
fn glyph_bit_layout() {
    assert_eq!(GLYPH_BOLD, 0x0400);
    assert_eq!(GLYPH_ITALIC, 0x0800);
    assert_eq!(GLYPH_UNDERLINE, 0x2000);
    assert_eq!(GLYPH_STRIKETHROUGH, 0x4000);
    assert_eq!(into_glyph_bits(MOD_BOLD | MOD_UNDERLINED), 0x2400);
    assert_eq!(into_glyph_bits(MOD_REVERSED | MOD_HYPERLINK), 0x2000);
}

#[test]
fn glyph_packing_is_pure() {
    let first = into_glyph_bits(MOD_BOLD | MOD_UNDERLINED);
    let second = into_glyph_bits(MOD_BOLD | MOD_UNDERLINED);
    assert_eq!(first, second);
    assert_eq!(into_glyph_bits(MOD_BOLD) & GLYPH_UNDERLINE, 0);
}

#[test]
fn colors_pack_to_rgb() {
    assert_eq!(to_rgb(Color::Reset, 0x123456), 0x123456);
    assert_eq!(to_rgb(Color::Rgb(0x12, 0x34, 0x56), 0), 0x123456);
    assert_eq!(to_rgb(Color::Red, 0), 0x800000);
    assert_eq!(to_rgb(Color::White, 0), 0xffffff);
    assert_eq!(to_rgb(Color::Indexed(9), 0), 0xff0000);
    assert_eq!(to_rgb(Color::Indexed(16), 0), 0x000000);
    assert_eq!(to_rgb(Color::Indexed(196), 0), 0xff0000);
    assert_eq!(to_rgb(Color::Indexed(231), 0), 0xffffff);
    assert_eq!(to_rgb(Color::Indexed(232), 0), 0x080808);
    assert_eq!(to_rgb(Color::Indexed(255), 0), 0xeeeeee);
}

#[test]
fn reversed_cell_swaps_packed_colors() {
    let plain = Cell::new("a", Color::Reset, Color::Reset, 0);
    assert_eq!(resolve_fg_bg_colors(&plain), (0xffffff, 0x000000));
    let reversed = Cell::new("a", Color::Red, Color::Blue, MOD_REVERSED | MOD_ITALIC);
    assert_eq!(resolve_fg_bg_colors(&reversed), (0x000080, 0x800000));
    let data = cell_data(&reversed);
    assert_eq!(data.symbol, "a");
    assert_eq!(data.style, GLYPH_ITALIC);
    assert_eq!((data.fg, data.bg), (0x000080, 0x800000));
}

fn record(backend: &WebGl2Backend, x: u16, y: u16) -> (String, u16, u32, u32) {
    let d = &backend.cells[y as usize * backend.cols as usize + x as usize];
    (d.symbol.clone(), d.style, d.fg, d.bg)
}

#[test]
fn cursor_toggle_restores_cell_after_render() {
    let mut backend = WebGl2Backend::new(4, 2, CursorShape::SteadyBlock, false);
    backend.draw(&vec![(2, 1, Cell::new("q", Color::Red, Color::Blue, MOD_BOLD))]);
    backend.set_cursor_position(Position { x: 2, y: 1 });
    let before = record(&backend, 2, 1);
    let mut seen = None;
    let ok = backend.render_frame(|cells| {
        let d = &cells[6];
        seen = Some((d.fg, d.bg));
        true
    });
    assert!(ok);
    assert_eq!(seen, Some((0x000080, 0x800000)));
    assert_eq!(record(&backend, 2, 1), before);
}

#[test]
fn underscore_cursor_flips_underline_bit() {
    let mut backend = WebGl2Backend::new(2, 1, CursorShape::SteadyUnderScore, false);
    backend.set_cursor_position(Position { x: 0, y: 0 });
    backend.toggle_cursor();
    assert_eq!(backend.cells[0].style, GLYPH_UNDERLINE);
    backend.toggle_cursor();
    assert_eq!(backend.cells[0].style, 0);
}

fn link_row(backend: &mut WebGl2Backend, bits: &[bool]) {
    let content = bits
        .iter()
        .enumerate()
        .map(|(x, &link)| {
            let symbol = ["a", "b", "c", "d", "e"][x];
            (x as u16, 0, Cell::new(symbol, Color::Reset, Color::Reset, if link { MOD_HYPERLINK } else { 0 }))
        })
        .collect::<Vec<_>>();
    backend.draw(&content);
}

#[test]
fn hyperlink_span_scans_left_and_right() {
    let mut backend = WebGl2Backend::new(5, 1, CursorShape::SteadyBlock, false);
    link_row(&mut backend, &[false, true, true, true, false]);
    assert_eq!(backend.hyperlink_span(2, 0), Some((1, 3)));
    assert_eq!(backend.hyperlink_span(0, 0), None);
    assert_eq!(backend.hyperlink_span(9, 0), None);
    assert_eq!(backend.span_text(0, 1, 3), "bcd");
}

#[test]
fn hyperlink_click_and_hover() {
    let mut backend = WebGl2Backend::new(5, 1, CursorShape::SteadyBlock, false);
    link_row(&mut backend, &[true, true, false, false, true]);
    backend.record_pointer_event(MouseEventKind::ButtonUp(MouseButton::Left), 1, 0);
    backend.record_pointer_event(MouseEventKind::Moved, 4, 0);
    let effects = backend.process_hyperlink_events();
    assert_eq!(effects.clicked.as_deref(), Some("ab"));
    assert_eq!(effects.pointer, Some(true));
    assert!(backend.cursor_over_hyperlink);
    let again = backend.process_hyperlink_events();
    assert_eq!(again.clicked, None);
    assert_eq!(again.pointer, None);
    backend.record_pointer_event(MouseEventKind::ButtonUp(MouseButton::Right), 0, 0);
    backend.record_pointer_event(MouseEventKind::Moved, 2, 0);
    let moved = backend.process_hyperlink_events();
    assert_eq!(moved.clicked, None);
    assert_eq!(moved.pointer, Some(false));
}

#[test]
fn resize_resets_hyperlinks_and_clear_blanks_cells() {
    let mut backend = WebGl2Backend::new(5, 1, CursorShape::SteadyBlock, false);
    link_row(&mut backend, &[true, true, true, true, true]);
    backend.clear();
    assert_eq!(record(&backend, 0, 0), (" ".to_string(), 0, 0xffffff, 0x000000));
    assert!(!backend.is_hyperlink_at(0, 0));
    link_row(&mut backend, &[true, false, false, false, false]);
    backend.resize(3, 2);
    assert_eq!(backend.size(), (3, 2));
    assert!(!backend.is_hyperlink_at(0, 0));
    assert_eq!(backend.cells.len(), 6);
}
