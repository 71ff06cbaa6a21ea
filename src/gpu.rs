//! The GPU-batch renderer: packs changed cells into compact records for an
//! external batched renderer, toggles the cursor around each draw call, and
//! keeps the per-cell hyperlink index.
use vstd::prelude::*;
use crate::bits::{flags_of, FlagSet};
use crate::cell::{
    copy_text, Cell, CellView, Color, Position, MOD_BOLD, MOD_CROSSED_OUT, MOD_HYPERLINK,
    MOD_ITALIC, MOD_REVERSED, MOD_UNDERLINED,
};
use crate::cursor::CursorShape;
use crate::event::{MouseButton, MouseEventKind};
use crate::grid::{content_view, lemma_index_in_grid, writes_in_bounds};

verus! {

/// Bold glyph style bit of a packed record.
pub const GLYPH_BOLD: u16 = 0x0400;
/// Italic glyph style bit of a packed record.
pub const GLYPH_ITALIC: u16 = 0x0800;
/// Underline effect bit of a packed record.
pub const GLYPH_UNDERLINE: u16 = 0x2000;
/// Strikethrough effect bit of a packed record.
pub const GLYPH_STRIKETHROUGH: u16 = 0x4000;

/// The glyph style bits for modifier bits `m`: bold (bit 0) moves to bit 10,
/// italic (bit 2) to bit 11, underline (bit 3) to bit 13 and strikethrough
/// (bit 8) to bit 14; no other bit is set.
pub open spec fn glyph_bits_spec(m: u16) -> u16 {
    ((m << 10u16) & 0x0400u16) | ((m << 9u16) & 0x0800u16) | ((m << 10u16) & 0x2000u16) | ((m
        << 6u16) & 0x4000u16)
}

/// Packs modifier bits into the renderer's glyph style bits.
pub fn into_glyph_bits(modifier: u16) -> (r: u16)
    ensures
        r == glyph_bits_spec(modifier),
{
    let m = modifier;
    assert(1u16 << 10u16 == 0x0400u16 && 1u16 << 11u16 == 0x0800u16 && 1u16 << 13u16 == 0x2000u16
        && 1u16 << 14u16 == 0x4000u16) by (bit_vector);
    ((m << 10u16) & (1u16 << 10u16)) | ((m << 9u16) & (1u16 << 11u16)) | ((m << 10u16) & (1u16
        << 13u16)) | ((m << 6u16) & (1u16 << 14u16))
}

/// Each glyph style bit is set exactly when its modifier is, and no other bit
/// is ever set; so bold alone never sets the underline bit, and packing the
/// same modifiers always gives the same bits.
pub proof fn lemma_glyph_bits(m: u16)
    ensures
        (glyph_bits_spec(m) & GLYPH_BOLD != 0) == (m & MOD_BOLD != 0),
        (glyph_bits_spec(m) & GLYPH_ITALIC != 0) == (m & MOD_ITALIC != 0),
        (glyph_bits_spec(m) & GLYPH_UNDERLINE != 0) == (m & MOD_UNDERLINED != 0),
        (glyph_bits_spec(m) & GLYPH_STRIKETHROUGH != 0) == (m & MOD_CROSSED_OUT != 0),
        glyph_bits_spec(m) & !(GLYPH_BOLD | GLYPH_ITALIC | GLYPH_UNDERLINE | GLYPH_STRIKETHROUGH) == 0,
        glyph_bits_spec(MOD_BOLD) & GLYPH_UNDERLINE == 0,
{
    assert((glyph_bits_spec(m) & 0x0400u16 != 0) == (m & 0x0001u16 != 0)) by (bit_vector);
    assert((glyph_bits_spec(m) & 0x0800u16 != 0) == (m & 0x0004u16 != 0)) by (bit_vector);
    assert((glyph_bits_spec(m) & 0x2000u16 != 0) == (m & 0x0008u16 != 0)) by (bit_vector);
    assert((glyph_bits_spec(m) & 0x4000u16 != 0) == (m & 0x0100u16 != 0)) by (bit_vector);
    assert(glyph_bits_spec(m) & !(0x0400u16 | 0x0800u16 | 0x2000u16 | 0x4000u16) == 0) by (bit_vector);
    assert(glyph_bits_spec(0x0001u16) & 0x2000u16 == 0) by (bit_vector);
}

/// The 24-bit value of a color channel triple.
pub open spec fn rgb_spec(r: u8, g: u8, b: u8) -> u32 {
    (r * 0x10000 + g * 0x100 + b) as u32
}

/// The 24-bit values of the sixteen named colors.
pub open spec fn named_rgb(i: u8) -> u32 {
    if i == 0 { 0x000000 }
    else if i == 1 { 0x800000 }
    else if i == 2 { 0x008000 }
    else if i == 3 { 0x808000 }
    else if i == 4 { 0x000080 }
    else if i == 5 { 0x800080 }
    else if i == 6 { 0x008080 }
    else if i == 7 { 0xc0c0c0 }
    else if i == 8 { 0x808080 }
    else if i == 9 { 0xff0000 }
    else if i == 10 { 0x00ff00 }
    else if i == 11 { 0xffff00 }
    else if i == 12 { 0x0000ff }
    else if i == 13 { 0xff00ff }
    else if i == 14 { 0x00ffff }
    else { 0xffffff }
}

/// The channel level of a coordinate (0 to 5) of the 6×6×6 color cube.
pub open spec fn cube_level(c: int) -> int {
    if c == 0 { 0 } else { 55 + 40 * c }
}

/// The 24-bit value of an entry of the 256-color palette: the sixteen named
/// colors, then a 6×6×6 color cube, then 24 grays.
pub open spec fn indexed_rgb(i: u8) -> u32 {
    if i < 16 {
        named_rgb(i)
    } else if i < 232 {
        let k = i - 16;
        (cube_level(k / 36) * 0x10000 + cube_level((k / 6) % 6) * 0x100 + cube_level(k % 6)) as u32
    } else {
        let v = 8 + 10 * (i - 232);
        (v * 0x10000 + v * 0x100 + v) as u32
    }
}

/// The 24-bit value of a color; the reset color stands for `default`.
pub open spec fn to_rgb_spec(c: Color, default: u32) -> u32 {
    match c {
        Color::Reset => default,
        Color::Black => named_rgb(0),
        Color::Red => named_rgb(1),
        Color::Green => named_rgb(2),
        Color::Yellow => named_rgb(3),
        Color::Blue => named_rgb(4),
        Color::Magenta => named_rgb(5),
        Color::Cyan => named_rgb(6),
        Color::Gray => named_rgb(7),
        Color::DarkGray => named_rgb(8),
        Color::LightRed => named_rgb(9),
        Color::LightGreen => named_rgb(10),
        Color::LightYellow => named_rgb(11),
        Color::LightBlue => named_rgb(12),
        Color::LightMagenta => named_rgb(13),
        Color::LightCyan => named_rgb(14),
        Color::White => named_rgb(15),
        Color::Rgb(r, g, b) => rgb_spec(r, g, b),
        Color::Indexed(i) => indexed_rgb(i),
    }
}

fn named(i: u8) -> (r: u32)
    ensures
        r == named_rgb(i),
{
    if i == 0 { 0x000000 }
    else if i == 1 { 0x800000 }
    else if i == 2 { 0x008000 }
    else if i == 3 { 0x808000 }
    else if i == 4 { 0x000080 }
    else if i == 5 { 0x800080 }
    else if i == 6 { 0x008080 }
    else if i == 7 { 0xc0c0c0 }
    else if i == 8 { 0x808080 }
    else if i == 9 { 0xff0000 }
    else if i == 10 { 0x00ff00 }
    else if i == 11 { 0xffff00 }
    else if i == 12 { 0x0000ff }
    else if i == 13 { 0xff00ff }
    else if i == 14 { 0x00ffff }
    else { 0xffffff }
}

fn cube(c: u32) -> (r: u32)
    requires
        c < 6,
    ensures
        r == cube_level(c as int),
{
    if c == 0 {
        0
    } else {
        55 + 40 * c
    }
}

/// The 24-bit value of a color; the reset color stands for `default`.
pub fn to_rgb(c: Color, default: u32) -> (r: u32)
    ensures
        r == to_rgb_spec(c, default),
{
    match c {
        Color::Reset => default,
        Color::Black => named(0),
        Color::Red => named(1),
        Color::Green => named(2),
        Color::Yellow => named(3),
        Color::Blue => named(4),
        Color::Magenta => named(5),
        Color::Cyan => named(6),
        Color::Gray => named(7),
        Color::DarkGray => named(8),
        Color::LightRed => named(9),
        Color::LightGreen => named(10),
        Color::LightYellow => named(11),
        Color::LightBlue => named(12),
        Color::LightMagenta => named(13),
        Color::LightCyan => named(14),
        Color::White => named(15),
        Color::Rgb(r, g, b) => (r as u32) * 0x10000 + (g as u32) * 0x100 + (b as u32),
        Color::Indexed(i) => {
            if i < 16 {
                named(i)
            } else if i < 232 {
                let k = (i - 16) as u32;
                cube(k / 36) * 0x10000 + cube((k / 6) % 6) * 0x100 + cube(k % 6)
            } else {
                let v = 8 + 10 * ((i - 232) as u32);
                v * 0x10000 + v * 0x100 + v
            }
        },
    }
}

/// A cell packed for the renderer: symbol, glyph style bits, 24-bit colors.
#[derive(Debug)]
pub struct CellData {
    pub symbol: String,
    pub style: u16,
    pub fg: u32,
    pub bg: u32,
}

/// What a packed record holds, as a value.
pub struct CellDataView {
    pub symbol: Seq<char>,
    pub style: u16,
    pub fg: u32,
    pub bg: u32,
}

impl View for CellData {
    type V = CellDataView;

    open spec fn view(&self) -> CellDataView {
        CellDataView { symbol: self.symbol@, style: self.style, fg: self.fg, bg: self.bg }
    }
}

/// The text and background colors of a cell, white on black by default and
/// swapped when the cell is reversed.
pub open spec fn fg_bg_spec(c: CellView) -> (u32, u32) {
    let fg = to_rgb_spec(c.fg, 0xffffff);
    let bg = to_rgb_spec(c.bg, 0x000000);
    if c.modifier & MOD_REVERSED != 0 {
        (bg, fg)
    } else {
        (fg, bg)
    }
}

/// The packed record of a cell.
pub open spec fn packed_spec(c: CellView) -> CellDataView {
    CellDataView {
        symbol: c.symbol,
        style: glyph_bits_spec(c.modifier),
        fg: fg_bg_spec(c).0,
        bg: fg_bg_spec(c).1,
    }
}

/// The packed record of a blank cell: a space, white on black, no style.
pub open spec fn blank_record() -> CellDataView {
    CellDataView { symbol: seq![' '], style: 0, fg: 0xffffff, bg: 0x000000 }
}

/// The text and background colors of a cell, swapped when it is reversed.
pub fn resolve_fg_bg_colors(cell: &Cell) -> (r: (u32, u32))
    ensures
        r == fg_bg_spec(cell@),
{
    let fg = to_rgb(cell.fg, 0xffffff);
    let bg = to_rgb(cell.bg, 0x000000);
    if cell.modifier & MOD_REVERSED != 0 {
        (bg, fg)
    } else {
        (fg, bg)
    }
}

/// Packs a cell for the renderer.
pub fn cell_data(cell: &Cell) -> (r: CellData)
    ensures
        r@ == packed_spec(cell@),
{
    let (fg, bg) = resolve_fg_bg_colors(cell);
    CellData { symbol: copy_text(cell.symbol.as_str()), style: into_glyph_bits(cell.modifier), fg, bg }
}

fn blank_cell_data() -> (r: CellData)
    ensures
        r@ == blank_record(),
{
    proof {
        reveal_strlit(" ");
        assert(" "@ =~= seq![' ']);
    }
    CellData { symbol: String::from_str(" "), style: 0, fg: 0xffffff, bg: 0x000000 }
}

/// A record with the cursor shape applied: colors swapped for a block,
/// underline flipped for an underscore.
pub open spec fn cursor_toggled(d: CellDataView, shape: CursorShape) -> CellDataView {
    match shape {
        CursorShape::SteadyBlock => CellDataView { fg: d.bg, bg: d.fg, ..d },
        CursorShape::SteadyUnderScore => CellDataView { style: d.style ^ GLYPH_UNDERLINE, ..d },
        CursorShape::NoShape => d,
    }
}

/// Whether a cell carries the hyperlink marker.
pub open spec fn is_link(c: CellView) -> bool {
    c.modifier & MOD_HYPERLINK == MOD_HYPERLINK
}

/// The records after each write (column, row, cell) of `content`, in order.
pub open spec fn packed_writes(g: Seq<CellDataView>, width: nat, content: Seq<(u16, u16, CellView)>) -> Seq<CellDataView>
    decreases content.len(),
{
    if content.len() == 0 {
        g
    } else {
        let t = content.last();
        packed_writes(g, width, content.drop_last()).update(t.1 * width + t.0, packed_spec(t.2))
    }
}

/// The hyperlink flags after each write of `content`, in order.
pub open spec fn link_writes(f: Seq<bool>, width: nat, content: Seq<(u16, u16, CellView)>) -> Seq<bool>
    decreases content.len(),
{
    if content.len() == 0 {
        f
    } else {
        let t = content.last();
        link_writes(f, width, content.drop_last()).update(t.1 * width + t.0, is_link(t.2))
    }
}

/// The GPU backend: the packed records handed to the renderer, the hyperlink
/// index, the cursor and the pending pointer events.
pub struct WebGl2Backend {
    pub cols: u16,
    pub rows: u16,
    /// One record per cell, row by row.
    pub cells: Vec<CellData>,
    /// One flag per cell: whether it carries the hyperlink marker.
    pub hyperlinks: FlagSet,
    pub cursor_position: Option<Position>,
    pub cursor_shape: CursorShape,
    /// Whether the pointer was over a hyperlink at the last check.
    pub cursor_over_hyperlink: bool,
    /// Whether text selection with the mouse is on.
    pub mouse_selection: bool,
    /// The last pointer position seen, not yet checked for a hyperlink.
    pub pending_hover: Option<(u16, u16)>,
    /// The last primary-button release, not yet checked for a hyperlink.
    pub pending_click: Option<(u16, u16)>,
}

impl WebGl2Backend {
    /// The views of the records.
    pub open spec fn records(&self) -> Seq<CellDataView> {
        self.cells@.map_values(|d: CellData| d@)
    }

    /// One record and one flag per cell.
    pub open spec fn wf(&self) -> bool {
        &&& self.cells.len() == self.cols * self.rows
        &&& flags_of(self.hyperlinks).len() == self.cols * self.rows
        &&& self.cols * self.rows <= usize::MAX / 8
    }

    /// The row-major index of the cursor cell, if the cursor is inside the grid.
    pub open spec fn cursor_index(&self) -> Option<int> {
        match self.cursor_position {
            Some(p) => if p.x < self.cols && p.y < self.rows {
                Some(p.y * self.cols + p.x)
            } else {
                None
            },
            None => None,
        }
    }

    /// The records with the cursor shape applied to the cursor cell.
    pub open spec fn records_with_cursor(&self) -> Seq<CellDataView> {
        match self.cursor_index() {
            Some(i) => self.records().update(i, cursor_toggled(self.records()[i], self.cursor_shape)),
            None => self.records(),
        }
    }

    /// A backend for a `cols` × `rows` grid of blank cells.
    pub fn new(cols: u16, rows: u16, cursor_shape: CursorShape, mouse_selection: bool) -> (r: WebGl2Backend)
        requires
            cols * rows <= usize::MAX / 8,
        ensures
            r.wf(),
            r.cols == cols,
            r.rows == rows,
            forall|i: int| 0 <= i < r.records().len() ==> #[trigger] r.records()[i] == blank_record(),
            forall|i: int| 0 <= i < flags_of(r.hyperlinks).len() ==> !#[trigger] flags_of(r.hyperlinks)[i],
            r.cursor_position.is_none(),
            r.cursor_shape == cursor_shape,
            !r.cursor_over_hyperlink,
            r.mouse_selection == mouse_selection,
            r.pending_hover.is_none(),
            r.pending_click.is_none(),
    {
        let (cells, hyperlinks) = blank_cells(cols, rows);
        WebGl2Backend {
            cols,
            rows,
            cells,
            hyperlinks,
            cursor_position: None,
            cursor_shape,
            cursor_over_hyperlink: false,
            mouse_selection,
            pending_hover: None,
            pending_click: None,
        }
    }

    /// Applies the cursor shape to the cursor cell, or takes it off again: the
    /// shape is its own inverse.
    pub fn toggle_cursor(&mut self)
        requires
            old(self).wf(),
        ensures
            final(self).wf(),
            final(self).records() == old(self).records_with_cursor(),
            final(self).cols == old(self).cols,
            final(self).rows == old(self).rows,
            final(self).hyperlinks == old(self).hyperlinks,
            final(self).cursor_position == old(self).cursor_position,
            final(self).cursor_shape == old(self).cursor_shape,
            final(self).cursor_over_hyperlink == old(self).cursor_over_hyperlink,
            final(self).mouse_selection == old(self).mouse_selection,
            final(self).pending_hover == old(self).pending_hover,
            final(self).pending_click == old(self).pending_click,
    {
        if let Some(pos) = self.cursor_position {
            if pos.x < self.cols && pos.y < self.rows {
                proof {
                    lemma_index_in_grid(pos.x as int, pos.y as int, self.cols as int, self.rows as int);
                }
                let i = pos.y as usize * self.cols as usize + pos.x as usize;
                let old_cell = &self.cells[i];
                let toggled = match self.cursor_shape {
                    CursorShape::SteadyBlock => CellData {
                        symbol: copy_text(old_cell.symbol.as_str()),
                        style: old_cell.style,
                        fg: old_cell.bg,
                        bg: old_cell.fg,
                    },
                    CursorShape::SteadyUnderScore => CellData {
                        symbol: copy_text(old_cell.symbol.as_str()),
                        style: old_cell.style ^ GLYPH_UNDERLINE,
                        fg: old_cell.fg,
                        bg: old_cell.bg,
                    },
                    CursorShape::NoShape => CellData {
                        symbol: copy_text(old_cell.symbol.as_str()),
                        style: old_cell.style,
                        fg: old_cell.fg,
                        bg: old_cell.bg,
                    },
                };
                assert(toggled@ == cursor_toggled(self.records()[i as int], self.cursor_shape));
                self.cells.set(i, toggled);
                assert(self.records() =~= old(self).records_with_cursor());
            }
        }
    }

    /// Hands the records, with the cursor shape applied to the cursor cell,
    /// to `render` (the renderer's draw call), then takes the cursor shape off
    /// again: the stored records come out as they went in.
    pub fn render_frame<F: FnOnce(&Vec<CellData>) -> bool>(&mut self, render: F) -> (ok: bool)
        requires
            old(self).wf(),
            forall|v: &Vec<CellData>| #[trigger] render.requires((v,)),
        ensures
            final(self).wf(),
            final(self).records() == old(self).records(),
            *final(self) == (WebGl2Backend { cells: final(self).cells, ..*old(self) }),
            exists|v: &Vec<CellData>|
                v@.map_values(|d: CellData| d@) == old(self).records_with_cursor() && #[trigger] render.ensures((v,), ok),
    {
        self.toggle_cursor();
        let ok = render(&self.cells);
        self.toggle_cursor();
        proof {
            match old(self).cursor_index() {
                Some(i) => {
                    let p = old(self).cursor_position.unwrap();
                    lemma_index_in_grid(p.x as int, p.y as int, self.cols as int, self.rows as int);
                    lemma_cursor_toggle_twice(old(self).records()[i], self.cursor_shape);
                    assert(self.records() =~= old(self).records());
                },
                None => {},
            }
        }
        ok
    }
}

/// Toggling the cursor shape twice gives back the record unchanged.
pub proof fn lemma_cursor_toggle_twice(d: CellDataView, shape: CursorShape)
    ensures
        cursor_toggled(cursor_toggled(d, shape), shape) == d,
{
    let s = d.style;
    assert((s ^ 0x2000u16) ^ 0x2000u16 == s) by (bit_vector);
}

/// `cols * rows` blank records and as many cleared hyperlink flags.
fn blank_cells(cols: u16, rows: u16) -> (r: (Vec<CellData>, FlagSet))
    requires
        cols * rows <= usize::MAX / 8,
    ensures
        r.0.len() == cols * rows,
        forall|i: int| 0 <= i < r.0.len() ==> #[trigger] r.0@[i]@ == blank_record(),
        flags_of(r.1).len() == cols * rows,
        forall|i: int| 0 <= i < flags_of(r.1).len() ==> !#[trigger] flags_of(r.1)[i],
{
    proof {
        vstd::arithmetic::mul::lemma_mul_upper_bound(cols as int, 0xffff, rows as int, 0xffff);
    }
    let n = cols as usize * rows as usize;
    let mut cells: Vec<CellData> = Vec::new();
    let mut i: usize = 0;
    while i < n
        invariant
            i <= n,
            cells.len() == i,
            forall|j: int| 0 <= j < i ==> #[trigger] cells@[j]@ == blank_record(),
        decreases n - i,
    {
        cells.push(blank_cell_data());
        i += 1;
    }
    (cells, FlagSet::repeat(false, n))
}

/// Whether every cell of row `row` from column `start` to `end` (inclusive)
/// carries the hyperlink flag.
pub open spec fn all_links(flags: Seq<bool>, cols: int, row: int, start: int, end: int) -> bool {
    forall|c: int| start <= c <= end ==> #[trigger] flags[row * cols + c]
}

/// The hyperlink span through column `col` of row `row`: the maximal run of
/// flagged cells of that row that holds the column, if the column is flagged.
pub open spec fn is_link_span(flags: Seq<bool>, cols: int, row: int, col: int, start: int, end: int) -> bool {
    &&& 0 <= start <= col <= end < cols
    &&& all_links(flags, cols, row, start, end)
    &&& (start == 0 || !flags[row * cols + start - 1])
    &&& (end == cols - 1 || !flags[row * cols + end + 1])
}

/// What the host does after pending pointer events are checked.
pub struct HyperlinkEffects {
    /// The text of the hyperlink that was clicked, if any.
    pub clicked: Option<String>,
    /// The new pointer style when it changes: `true` for the pointing hand.
    pub pointer: Option<bool>,
}

impl WebGl2Backend {
    /// Packs each (column, row, cell) of `content` into the records and
    /// records whether it carries the hyperlink marker.
    pub fn update_grid(&mut self, content: &Vec<(u16, u16, Cell)>)
        requires
            old(self).wf(),
            writes_in_bounds(content@, old(self).cols as nat, old(self).rows as nat),
        ensures
            final(self).wf(),
            final(self).records() == packed_writes(old(self).records(), old(self).cols as nat, content_view(content@)),
            flags_of(final(self).hyperlinks) == link_writes(flags_of(old(self).hyperlinks), old(self).cols as nat, content_view(content@)),
            final(self).cols == old(self).cols,
            final(self).rows == old(self).rows,
            final(self).cursor_position == old(self).cursor_position,
            final(self).cursor_shape == old(self).cursor_shape,
            final(self).cursor_over_hyperlink == old(self).cursor_over_hyperlink,
            final(self).mouse_selection == old(self).mouse_selection,
            final(self).pending_hover == old(self).pending_hover,
            final(self).pending_click == old(self).pending_click,
    {
        let mut i: usize = 0;
        while i < content.len()
            invariant
                i <= content.len(),
                self.wf(),
                self.cols == old(self).cols,
                self.rows == old(self).rows,
                self.cursor_position == old(self).cursor_position,
                self.cursor_shape == old(self).cursor_shape,
                self.cursor_over_hyperlink == old(self).cursor_over_hyperlink,
                self.mouse_selection == old(self).mouse_selection,
                self.pending_hover == old(self).pending_hover,
                self.pending_click == old(self).pending_click,
                writes_in_bounds(content@, self.cols as nat, self.rows as nat),
                self.records() == packed_writes(old(self).records(), self.cols as nat, content_view(content@).take(i as int)),
                flags_of(self.hyperlinks) == link_writes(flags_of(old(self).hyperlinks), self.cols as nat, content_view(content@).take(i as int)),
            decreases content.len() - i,
        {
            let x = content[i].0;
            let y = content[i].1;
            proof {
                lemma_index_in_grid(x as int, y as int, self.cols as int, self.rows as int);
            }
            let index = y as usize * self.cols as usize + x as usize;
            let cell = &content[i].2;
            let record = cell_data(cell);
            self.cells.set(index, record);
            self.hyperlinks.set(index, cell.modifier & MOD_HYPERLINK == MOD_HYPERLINK);
            proof {
                let cv = content_view(content@);
                assert(cv.take(i as int + 1).drop_last() =~= cv.take(i as int));
                assert(self.records() =~= packed_writes(old(self).records(), self.cols as nat, cv.take(i as int + 1)));
            }
            i += 1;
        }
        assert(content_view(content@).take(content.len() as int) =~= content_view(content@));
    }

    /// Draws the changed cells. Nothing is uploaded for an empty batch unless
    /// mouse selection is on.
    pub fn draw(&mut self, content: &Vec<(u16, u16, Cell)>)
        requires
            old(self).wf(),
            writes_in_bounds(content@, old(self).cols as nat, old(self).rows as nat),
        ensures
            final(self).wf(),
            final(self).records() == packed_writes(old(self).records(), old(self).cols as nat, content_view(content@)),
            flags_of(final(self).hyperlinks) == link_writes(flags_of(old(self).hyperlinks), old(self).cols as nat, content_view(content@)),
            final(self).cols == old(self).cols,
            final(self).rows == old(self).rows,
            final(self).cursor_position == old(self).cursor_position,
            final(self).cursor_shape == old(self).cursor_shape,
    {
        if content.len() != 0 || self.mouse_selection {
            self.update_grid(content);
        }
    }

    /// Whether the cell at (`col`, `row`) carries the hyperlink marker; false
    /// outside the grid.
    pub fn is_hyperlink_at(&self, col: u16, row: u16) -> (r: bool)
        requires
            self.wf(),
        ensures
            r == (col < self.cols && row < self.rows && flags_of(self.hyperlinks)[row * self.cols + col]),
    {
        if col < self.cols && row < self.rows {
            proof {
                lemma_index_in_grid(col as int, row as int, self.cols as int, self.rows as int);
            }
            self.hyperlinks.get(row as usize * self.cols as usize + col as usize)
        } else {
            false
        }
    }

    /// The first and last column of the hyperlink span through (`col`,
    /// `row`): scans left and right along the row while the hyperlink flag
    /// holds. `None` when that cell is not part of a hyperlink.
    pub fn hyperlink_span(&self, col: u16, row: u16) -> (r: Option<(u16, u16)>)
        requires
            self.wf(),
        ensures
            r.is_none() == !(col < self.cols && row < self.rows && flags_of(self.hyperlinks)[row * self.cols + col]),
            r matches Some((s, e)) ==> is_link_span(flags_of(self.hyperlinks), self.cols as int, row as int, col as int, s as int, e as int),
    {
        if !self.is_hyperlink_at(col, row) {
            return None;
        }
        let ghost flags = flags_of(self.hyperlinks);
        let ghost cols = self.cols as int;
        proof {
            lemma_index_in_grid(self.cols as int - 1, row as int, self.cols as int, self.rows as int);
        }
        let base = row as usize * self.cols as usize;
        let mut start: u16 = col;
        while start > 0 && self.hyperlinks.get(base + start as usize - 1)
            invariant
                self.wf(),
                flags == flags_of(self.hyperlinks),
                cols == self.cols,
                col < self.cols,
                row < self.rows,
                base == row * cols,
                base + cols <= flags.len(),
                start <= col,
                all_links(flags, cols, row as int, start as int, col as int),
            decreases start,
        {
            start = start - 1;
        }
        let mut end: u16 = col;
        while end + 1 < self.cols && self.hyperlinks.get(base + end as usize + 1)
            invariant
                self.wf(),
                flags == flags_of(self.hyperlinks),
                cols == self.cols,
                col < self.cols,
                row < self.rows,
                base == row * cols,
                base + cols <= flags.len(),
                col <= end < self.cols,
                all_links(flags, cols, row as int, col as int, end as int),
            decreases self.cols - end,
        {
            end = end + 1;
        }
        Some((start, end))
    }

    /// The symbols of the cells of row `row` from column `start` to `end`
    /// (inclusive), joined.
    pub fn span_text(&self, row: u16, start: u16, end: u16) -> (r: String)
        requires
            self.wf(),
            start <= end < self.cols,
            row < self.rows,
        ensures
            r@ == span_text_spec(self.records(), self.cols as int, row as int, start as int, end as int + 1),
    {
        let mut text = String::new();
        let mut c: u16 = start;
        while c <= end
            invariant
                self.wf(),
                start <= c <= end + 1,
                end < self.cols,
                row < self.rows,
                text@ == span_text_spec(self.records(), self.cols as int, row as int, start as int, c as int),
            decreases end + 1 - c,
        {
            proof {
                lemma_index_in_grid(c as int, row as int, self.cols as int, self.rows as int);
            }
            let i = row as usize * self.cols as usize + c as usize;
            assert(self.records()[i as int] == self.cells@[i as int]@);
            text.append(self.cells[i].symbol.as_str());
            c = c + 1;
        }
        text
    }
}

/// The symbols of the records of row `row` from column `start` up to, not
/// including, column `stop`, joined.
pub open spec fn span_text_spec(records: Seq<CellDataView>, cols: int, row: int, start: int, stop: int) -> Seq<char>
    decreases stop - start,
{
    if stop <= start {
        seq![]
    } else {
        span_text_spec(records, cols, row, start, stop - 1) + records[row * cols + stop - 1].symbol
    }
}

impl WebGl2Backend {
    /// Records a pointer event for the hyperlink check of the next flush: a
    /// primary-button release as a click, a movement as a hover.
    pub fn record_pointer_event(&mut self, kind: MouseEventKind, col: u16, row: u16)
        ensures
            *final(self) == match kind {
                MouseEventKind::ButtonUp(MouseButton::Left) => WebGl2Backend { pending_click: Some((col, row)), ..*old(self) },
                MouseEventKind::Moved => WebGl2Backend { pending_hover: Some((col, row)), ..*old(self) },
                _ => *old(self),
            },
    {
        match kind {
            MouseEventKind::ButtonUp(MouseButton::Left) => {
                self.pending_click = Some((col, row));
            },
            MouseEventKind::Moved => {
                self.pending_hover = Some((col, row));
            },
            _ => {},
        }
    }

    /// Checks the pending pointer events against the hyperlink index. A
    /// pending click is consumed; on a hyperlink it yields the text of the
    /// hyperlink's span. A pending hover updates whether the pointer is over a
    /// hyperlink and yields the new pointer style only when that changes.
    pub fn process_hyperlink_events(&mut self) -> (r: HyperlinkEffects)
        requires
            old(self).wf(),
        ensures
            final(self).wf(),
            final(self).pending_click.is_none(),
            *final(self) == (WebGl2Backend {
                pending_click: None,
                cursor_over_hyperlink: final(self).cursor_over_hyperlink,
                ..*old(self)
            }),
            match old(self).pending_click {
                Some((c, w)) => {
                    &&& r.clicked.is_some() == (c < old(self).cols && w < old(self).rows
                        && flags_of(old(self).hyperlinks)[w * old(self).cols + c])
                    &&& r.clicked matches Some(text) ==> exists|s: int, e: int|
                        is_link_span(flags_of(old(self).hyperlinks), old(self).cols as int, w as int, c as int, s, e)
                        && text@ == #[trigger] span_text_spec(old(self).records(), old(self).cols as int, w as int, s, e + 1)
                },
                None => r.clicked.is_none(),
            },
            match old(self).pending_hover {
                Some((c, w)) => {
                    let over = c < old(self).cols && w < old(self).rows
                        && flags_of(old(self).hyperlinks)[w * old(self).cols + c];
                    &&& final(self).cursor_over_hyperlink == over
                    &&& r.pointer == if over != old(self).cursor_over_hyperlink { Some(over) } else { None }
                },
                None => {
                    &&& final(self).cursor_over_hyperlink == old(self).cursor_over_hyperlink
                    &&& r.pointer.is_none()
                },
            },
    {
        let mut clicked: Option<String> = None;
        if let Some((col, row)) = self.pending_click {
            self.pending_click = None;
            if let Some((start, end)) = self.hyperlink_span(col, row) {
                let text = self.span_text(row, start, end);
                assert(self.records() == old(self).records());
                assert(is_link_span(
                    flags_of(old(self).hyperlinks),
                    old(self).cols as int,
                    row as int,
                    col as int,
                    start as int,
                    end as int,
                ) && text@ == span_text_spec(
                    old(self).records(),
                    old(self).cols as int,
                    row as int,
                    start as int,
                    end as int + 1,
                ));
                clicked = Some(text);
            }
        }
        let mut pointer: Option<bool> = None;
        if let Some((col, row)) = self.pending_hover {
            let is_over = self.is_hyperlink_at(col, row);
            if self.cursor_over_hyperlink != is_over {
                self.cursor_over_hyperlink = is_over;
                pointer = Some(is_over);
            }
        }
        HyperlinkEffects { clicked, pointer }
    }

    /// Resizes the grid to `cols` × `rows` blank cells and resets the
    /// hyperlink index and hover state.
    pub fn resize(&mut self, cols: u16, rows: u16)
        requires
            cols * rows <= usize::MAX / 8,
        ensures
            final(self).wf(),
            final(self).cols == cols,
            final(self).rows == rows,
            forall|i: int| 0 <= i < final(self).records().len() ==> #[trigger] final(self).records()[i] == blank_record(),
            forall|i: int| 0 <= i < flags_of(final(self).hyperlinks).len() ==> !#[trigger] flags_of(final(self).hyperlinks)[i],
            !final(self).cursor_over_hyperlink,
            final(self).cursor_position == old(self).cursor_position,
            final(self).cursor_shape == old(self).cursor_shape,
    {
        let (cells, hyperlinks) = blank_cells(cols, rows);
        self.cols = cols;
        self.rows = rows;
        self.cells = cells;
        self.hyperlinks = hyperlinks;
        self.cursor_over_hyperlink = false;
    }

    /// Resets every cell to a blank record and clears the hyperlink index.
    pub fn clear(&mut self)
        requires
            old(self).wf(),
        ensures
            final(self).wf(),
            final(self).cols == old(self).cols,
            final(self).rows == old(self).rows,
            forall|i: int| 0 <= i < final(self).records().len() ==> #[trigger] final(self).records()[i] == blank_record(),
            forall|i: int| 0 <= i < flags_of(final(self).hyperlinks).len() ==> !#[trigger] flags_of(final(self).hyperlinks)[i],
            final(self).cursor_position == old(self).cursor_position,
            final(self).cursor_over_hyperlink == old(self).cursor_over_hyperlink,
    {
        let (cells, hyperlinks) = blank_cells(self.cols, self.rows);
        self.cells = cells;
        self.hyperlinks = hyperlinks;
    }

    /// The grid size in cells.
    pub fn size(&self) -> (r: (u16, u16))
        ensures
            r == (self.cols, self.rows),
    {
        (self.cols, self.rows)
    }

    /// The cursor position, or the origin when there is none.
    pub fn get_cursor_position(&self) -> (r: Position)
        ensures
            r == match self.cursor_position {
                Some(p) => p,
                None => Position { x: 0, y: 0 },
            },
    {
        match self.cursor_position {
            Some(p) => p,
            None => Position { x: 0, y: 0 },
        }
    }

    /// Moves the cursor to `position`.
    pub fn set_cursor_position(&mut self, position: Position)
        ensures
            *final(self) == (WebGl2Backend { cursor_position: Some(position), ..*old(self) }),
    {
        self.cursor_position = Some(position);
    }

    /// Forgets the cursor position.
    pub fn hide_cursor(&mut self)
        ensures
            *final(self) == (WebGl2Backend { cursor_position: None, ..*old(self) }),
    {
        self.cursor_position = None;
    }

    /// The cursor shape.
    pub fn cursor_shape(&self) -> (r: &CursorShape)
        ensures
            *r == self.cursor_shape,
    {
        &self.cursor_shape
    }

    /// The backend with the given cursor shape.
    pub fn set_cursor_shape(self, shape: CursorShape) -> (r: WebGl2Backend)
        ensures
            r == (WebGl2Backend { cursor_shape: shape, ..self }),
    {
        WebGl2Backend { cursor_shape: shape, ..self }
    }
}

} // verus!
