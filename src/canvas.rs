//! The canvas-painting renderer: turns the changed cells of a frame into a
//! list of 2D drawing operations.
use vstd::prelude::*;
use vstd::utf8::is_ascii_chars;
use crate::bits::{flags_of, FlagSet};
use crate::cell::{same_text, Cell, CellView, Color, Position, Rect, MOD_REVERSED, MOD_UNDERLINED};
use crate::cursor::{cursor_bit, CursorShape};
use crate::grid::{
    apply_writes, content_view, dirty_flags, lemma_index_in_grid, resolve_changed_cells,
    with_bits_at, writes_in_bounds, Grid,
};
use crate::merger::{process_spec, unit_rect, Region, RowColorOptimizer};

verus! {

/// Width of a cell on the canvas, in pixels.
pub const CELL_WIDTH: u32 = 10;

/// Height of a cell on the canvas, in pixels.
pub const CELL_HEIGHT: u32 = 19;

/// One drawing operation on a 2D canvas context. Coordinates are in cells.
#[derive(Debug, Clone, Copy, PartialEq, Eq, Structural)]
pub enum CanvasOp {
    /// Clear the whole canvas.
    ClearAll,
    /// Fill a rectangle of cells with a color.
    FillRect(Rect, Color),
    /// Drop any clip region and select the text color.
    TextColor(Color),
    /// Drop any clip region, clip to the cell at (x, y) and select the text color.
    ClipCell(u16, u16, Color),
    /// Draw the symbol of the cell at (x, y).
    Text(u16, u16),
    /// Draw an underscore at the cell at (x, y), for the cursor.
    CursorMark(u16, u16),
    /// Outline the cell at (x, y) in the debug color.
    Outline(u16, u16),
}

/// `c`, or `fallback` where `c` is the reset color.
pub open spec fn resolve_spec(c: Color, fallback: Color) -> Color {
    if c == Color::Reset {
        fallback
    } else {
        c
    }
}

/// `c`, or `fallback` where `c` is the reset color.
pub fn resolve_color(c: Color, fallback: Color) -> (r: Color)
    ensures
        r == resolve_spec(c, fallback),
{
    if c == Color::Reset {
        fallback
    } else {
        c
    }
}

/// Whether a cell's colors are swapped.
pub open spec fn is_reversed(c: CellView) -> bool {
    c.modifier & MOD_REVERSED != 0
}

/// The color a cell's text is drawn in.
pub open spec fn fg_of(c: CellView) -> Color {
    if is_reversed(c) {
        c.bg
    } else {
        c.fg
    }
}

/// The color a cell's background is filled with.
pub open spec fn bg_of(c: CellView) -> Color {
    if is_reversed(c) {
        c.fg
    } else {
        c.bg
    }
}

/// The text color of a cell: its background color when reversed.
pub fn actual_fg_color(cell: &Cell) -> (r: Color)
    ensures
        r == fg_of(cell@),
{
    if cell.modifier & MOD_REVERSED != 0 {
        cell.bg
    } else {
        cell.fg
    }
}

/// The background color of a cell: its text color when reversed.
pub fn actual_bg_color(cell: &Cell) -> (r: Color)
    ensures
        r == bg_of(cell@),
{
    if cell.modifier & MOD_REVERSED != 0 {
        cell.fg
    } else {
        cell.bg
    }
}

/// The fill of an emitted region, if any.
pub open spec fn region_ops(e: Option<Region>, background: Color) -> Seq<CanvasOp> {
    match e {
        Some((r, c)) => seq![CanvasOp::FillRect(r, resolve_spec(c, background))],
        None => seq![],
    }
}

/// The background pass over the first `k` cells: the region still pending and
/// the fills emitted so far. Runs of changed cells of one color are merged; an
/// unchanged cell and the end of a row end a run.
pub open spec fn background_upto(
    cells: Seq<CellView>,
    dirty: Seq<bool>,
    width: nat,
    background: Color,
    k: nat,
) -> (Option<Region>, Seq<CanvasOp>)
    decreases k,
{
    if k == 0 || width == 0 {
        (None, seq![])
    } else {
        let (p, ops) = background_upto(cells, dirty, width, background, (k - 1) as nat);
        let i = k - 1;
        let x = (i % (width as int)) as u16;
        let y = (i / (width as int)) as u16;
        let (p1, ops1) = if dirty[i] {
            let (np, e) = process_spec(p, x, y, bg_of(cells[i]));
            (np, ops + region_ops(e, background))
        } else {
            (None, ops + region_ops(p, background))
        };
        if i % (width as int) == width - 1 {
            (None, ops1 + region_ops(p1, background))
        } else {
            (p1, ops1)
        }
    }
}

/// The text pass over the first `k` cells: the last text color selected and
/// the operations emitted so far. Changed cells other than a single space are
/// drawn; a non-ASCII symbol, or every symbol when `clip_all`, is drawn clipped
/// to its cell; the text color is selected only when it changes.
pub open spec fn symbols_upto(
    cells: Seq<CellView>,
    dirty: Seq<bool>,
    width: nat,
    clip_all: bool,
    k: nat,
) -> (Option<Color>, Seq<CanvasOp>)
    decreases k,
{
    if k == 0 || width == 0 {
        (None, seq![])
    } else {
        let (last, ops) = symbols_upto(cells, dirty, width, clip_all, (k - 1) as nat);
        let i = k - 1;
        let x = (i % (width as int)) as u16;
        let y = (i / (width as int)) as u16;
        let c = cells[i];
        if !dirty[i] || c.symbol == seq![' '] {
            (last, ops)
        } else if clip_all || !is_ascii_chars(c.symbol) {
            (
                None,
                ops + seq![
                    CanvasOp::ClipCell(x, y, resolve_spec(fg_of(c), Color::White)),
                    CanvasOp::Text(x, y),
                ],
            )
        } else if last != Some(fg_of(c)) {
            (
                Some(fg_of(c)),
                ops + seq![
                    CanvasOp::TextColor(resolve_spec(fg_of(c), Color::White)),
                    CanvasOp::Text(x, y),
                ],
            )
        } else {
            (last, ops + seq![CanvasOp::Text(x, y)])
        }
    }
}

/// The cursor mark: an underscore where the cursor stands on an underlined cell.
pub open spec fn cursor_ops(
    cells: Seq<CellView>,
    width: nat,
    height: nat,
    cursor: Option<Position>,
) -> Seq<CanvasOp> {
    match cursor {
        Some(p) => if p.x < width && p.y < height && cells[p.y * width + p.x].modifier
            & MOD_UNDERLINED != 0 {
            seq![CanvasOp::CursorMark(p.x, p.y)]
        } else {
            seq![]
        },
        None => seq![],
    }
}

/// An outline around each of the `n` cells.
pub open spec fn debug_ops(width: nat, n: nat) -> Seq<CanvasOp> {
    Seq::new(
        n,
        |i: int| CanvasOp::Outline((i % (width as int)) as u16, (i / (width as int)) as u16),
    )
}

/// The operations that repaint a frame: a full clear when forced, the
/// background fills, the text, the cursor mark and, in debug mode, the cell
/// outlines.
pub open spec fn frame_ops(
    cells: Seq<CellView>,
    dirty: Seq<bool>,
    width: nat,
    height: nat,
    force: bool,
    clip_all: bool,
    cursor: Option<Position>,
    debug: bool,
    background: Color,
) -> Seq<CanvasOp> {
    (if force {
        seq![CanvasOp::ClearAll]
    } else {
        seq![]
    }) + background_upto(cells, dirty, width, background, cells.len()).1 + symbols_upto(
        cells,
        dirty,
        width,
        clip_all,
        cells.len(),
    ).1 + cursor_ops(cells, width, height, cursor) + if debug {
        debug_ops(width, cells.len())
    } else {
        seq![]
    }
}

proof fn lemma_col_row(i: int, w: int, x: int, y: int)
    requires
        w > 0,
        0 <= x < w,
        i == y * w + x,
    ensures
        i % w == x,
        i / w == y,
{
    vstd::arithmetic::div_mod::lemma_fundamental_div_mod_converse(i, w, y, x);
}

/// Every cell that `r` covers is flagged in `dirty`.
pub open spec fn region_dirty(r: Rect, dirty: Seq<bool>, width: nat) -> bool {
    forall|c: int| r.x <= c < r.x + r.width ==> #[trigger] dirty[r.y * width + c]
}

/// A fill covers changed cells only; other operations always pass.
pub open spec fn op_on_dirty(op: CanvasOp, dirty: Seq<bool>, width: nat) -> bool {
    match op {
        CanvasOp::FillRect(r, _) => region_dirty(r, dirty, width),
        _ => true,
    }
}

proof fn lemma_next_in_row(a: int, w: int)
    requires
        w > 0,
        a >= 0,
        a % w != w - 1,
    ensures
        (a + 1) % w == a % w + 1,
        (a + 1) / w == a / w,
{
    vstd::arithmetic::div_mod::lemma_fundamental_div_mod(a, w);
    vstd::arithmetic::div_mod::lemma_mod_bound(a, w);
    lemma_col_row(a + 1, w, a % w + 1, a / w);
}

proof fn lemma_region_ops_on_dirty(e: Option<Region>, background: Color, dirty: Seq<bool>, width: nat)
    requires
        e matches Some((r, _)) ==> region_dirty(r, dirty, width),
    ensures
        forall|j: int| 0 <= j < region_ops(e, background).len() ==> op_on_dirty(#[trigger] region_ops(e, background)[j], dirty, width),
{
}

proof fn lemma_concat_on_dirty(a: Seq<CanvasOp>, b: Seq<CanvasOp>, dirty: Seq<bool>, width: nat)
    requires
        forall|j: int| 0 <= j < a.len() ==> op_on_dirty(#[trigger] a[j], dirty, width),
        forall|j: int| 0 <= j < b.len() ==> op_on_dirty(#[trigger] b[j], dirty, width),
    ensures
        forall|j: int| 0 <= j < (a + b).len() ==> op_on_dirty(#[trigger] (a + b)[j], dirty, width),
{
    assert forall|j: int| 0 <= j < (a + b).len() implies op_on_dirty(#[trigger] (a + b)[j], dirty, width) by {
        if j < a.len() {
            assert((a + b)[j] == a[j]);
        } else {
            assert((a + b)[j] == b[j - a.len()]);
        }
    }
}

proof fn lemma_background_step(cells: Seq<CellView>, dirty: Seq<bool>, width: nat, background: Color, k: nat)
    requires
        0 < width <= u16::MAX,
        k <= dirty.len(),
        dirty.len() <= width * (u16::MAX as nat),
    ensures
        forall|j: int|
            0 <= j < background_upto(cells, dirty, width, background, k).1.len() ==> op_on_dirty(
                #[trigger] background_upto(cells, dirty, width, background, k).1[j],
                dirty,
                width,
            ),
        match background_upto(cells, dirty, width, background, k).0 {
            Some((r, _)) => {
                &&& k > 0
                &&& r.y == (k - 1) / (width as int)
                &&& r.x + r.width == (k - 1) % (width as int) + 1
                &&& region_dirty(r, dirty, width)
            },
            None => true,
        },
    decreases k,
{
    if k > 0 {
        let w = width as int;
        let i = k - 1;
        lemma_background_step(cells, dirty, width, background, (k - 1) as nat);
        let (p, ops) = background_upto(cells, dirty, width, background, (k - 1) as nat);
        vstd::arithmetic::div_mod::lemma_fundamental_div_mod(i, w);
        vstd::arithmetic::div_mod::lemma_mod_bound(i, w);
        vstd::arithmetic::div_mod::lemma_div_pos_is_pos(i, w);
        let q = i / w;
        assert(q < u16::MAX) by (nonlinear_arith)
            requires
                i == w * q + i % w,
                i % w >= 0,
                i < w * (u16::MAX as int),
                w > 0,
        ;
        let x = (i % w) as u16;
        let y = (i / w) as u16;
        vstd::arithmetic::mul::lemma_mul_is_commutative(w, q);
        assert(y * w + x == i);
        if p.is_some() {
            lemma_no_pending_at_row_start(cells, dirty, width, background, (k - 1) as nat);
            lemma_next_in_row(i - 1, w);
        }
        let unit = unit_rect(x, y);
        assert(region_dirty(unit, dirty, width) == dirty[i]) by {
            if dirty[i] {
                assert forall|c: int| unit.x <= c < unit.x + unit.width implies #[trigger] dirty[unit.y * width + c] by {
                    assert(c == x);
                }
            } else {
                assert(unit.x <= x < unit.x + unit.width);
                assert(!dirty[unit.y * width + x]);
            }
        }
        let (p1, ops1) = if dirty[i] {
            let (np, e) = process_spec(p, x, y, bg_of(cells[i]));
            (np, ops + region_ops(e, background))
        } else {
            (None, ops + region_ops(p, background))
        };
        if dirty[i] {
            let (np, e) = process_spec(p, x, y, bg_of(cells[i]));
            lemma_region_ops_on_dirty(e, background, dirty, width);
            lemma_concat_on_dirty(ops, region_ops(e, background), dirty, width);
            if let Some((r, c)) = p {
                if c == bg_of(cells[i]) {
                    let r1 = Rect { width: (r.width + 1) as u16, ..r };
                    assert(r.width + 1 <= w);
                    assert(np == Some((r1, c)));
                    assert forall|cc: int| r1.x <= cc < r1.x + r1.width implies #[trigger] dirty[r1.y * width + cc] by {
                        if cc < r.x + r.width {
                            assert(dirty[r.y * width + cc]);
                        } else {
                            assert(cc == x);
                        }
                    }
                }
            }
        } else {
            lemma_region_ops_on_dirty(p, background, dirty, width);
            lemma_concat_on_dirty(ops, region_ops(p, background), dirty, width);
        }
        if i % w == w - 1 {
            lemma_region_ops_on_dirty(p1, background, dirty, width);
            lemma_concat_on_dirty(ops1, region_ops(p1, background), dirty, width);
        }
    }
}

proof fn lemma_no_pending_at_row_start(cells: Seq<CellView>, dirty: Seq<bool>, width: nat, background: Color, k: nat)
    requires
        0 < width,
        k > 0,
    ensures
        background_upto(cells, dirty, width, background, k).0.is_some() ==> (k - 1) % (width as int)
            != width - 1,
{
}

/// Background fills never cover an unchanged cell: a run of one color ends
/// at every unchanged cell, even where the cells on both sides share its color.
pub proof fn lemma_fills_cover_changed_cells_only(
    cells: Seq<CellView>,
    dirty: Seq<bool>,
    width: nat,
    background: Color,
)
    requires
        0 < width <= u16::MAX,
        dirty.len() == cells.len(),
        cells.len() <= width * (u16::MAX as nat),
    ensures
        forall|j: int|
            0 <= j < background_upto(cells, dirty, width, background, cells.len()).1.len()
                ==> op_on_dirty(
                #[trigger] background_upto(cells, dirty, width, background, cells.len()).1[j],
                dirty,
                width,
            ),
{
    lemma_background_step(cells, dirty, width, background, cells.len());
}

/// Appends the fills of the background pass.
fn draw_background(buffer: &Grid, changed: &FlagSet, background: Color, ops: &mut Vec<CanvasOp>)
    requires
        buffer.wf(),
        buffer.width > 0,
        buffer.width <= u16::MAX,
        buffer.height <= u16::MAX,
        flags_of(*changed).len() == buffer.cells.len(),
    ensures
        final(ops)@ == old(ops)@ + background_upto(
            buffer@,
            flags_of(*changed),
            buffer.width as nat,
            background,
            buffer@.len(),
        ).1,
{
    let n = buffer.cells.len();
    let w = buffer.width;
    let ghost cells = buffer@;
    let ghost dirty = flags_of(*changed);
    let mut row_renderer = RowColorOptimizer::new();
    let mut index: usize = 0;
    let mut x: usize = 0;
    let mut y: usize = 0;
    proof {
        vstd::arithmetic::mul::lemma_mul_is_commutative(buffer.width as int, buffer.height as int);
    }
    while index < n
        invariant
            n == buffer.cells.len(),
            n == cells.len(),
            n == dirty.len(),
            cells == buffer@,
            dirty == flags_of(*changed),
            w == buffer.width,
            0 < w <= u16::MAX,
            buffer.height <= u16::MAX,
            n == w * buffer.height,
            index <= n,
            x < w,
            index == y * w + x,
            index < n ==> y < buffer.height,
            row_renderer.pending_region == background_upto(cells, dirty, w as nat, background, index as nat).0,
            ops@ == old(ops)@ + background_upto(cells, dirty, w as nat, background, index as nat).1,
            match row_renderer.pending_region {
                Some((r, _)) => r.width <= x,
                None => true,
            },
        decreases n - index,
    {
        proof {
            lemma_col_row(index as int, w as int, x as int, y as int);
        }
        let cell = &buffer.cells[index];
        assert(cells[index as int] == cell@);
        if changed.get(index) {
            let e = row_renderer.process_color((x as u16, y as u16), actual_bg_color(cell));
            if let Some((r, c)) = e {
                ops.push(CanvasOp::FillRect(r, resolve_color(c, background)));
            }
        } else {
            let e = row_renderer.flush();
            if let Some((r, c)) = e {
                ops.push(CanvasOp::FillRect(r, resolve_color(c, background)));
            }
        }
        if x + 1 == w {
            let e = row_renderer.flush();
            if let Some((r, c)) = e {
                ops.push(CanvasOp::FillRect(r, resolve_color(c, background)));
            }
            x = 0;
            y = y + 1;
        } else {
            x = x + 1;
        }
        index = index + 1;
        proof {
            vstd::arithmetic::mul::lemma_mul_is_distributive_add_other_way(w as int, y as int - 1, 1);
            if index < n && y >= buffer.height {
                vstd::arithmetic::mul::lemma_mul_inequality(buffer.height as int, y as int, w as int);
                vstd::arithmetic::mul::lemma_mul_is_commutative(w as int, buffer.height as int);
            }
        }
    }
}

/// Appends the operations of the text pass.
fn draw_symbols(buffer: &Grid, changed: &FlagSet, clip_all: bool, ops: &mut Vec<CanvasOp>)
    requires
        buffer.wf(),
        buffer.width > 0,
        buffer.width <= u16::MAX,
        buffer.height <= u16::MAX,
        flags_of(*changed).len() == buffer.cells.len(),
    ensures
        final(ops)@ == old(ops)@ + symbols_upto(
            buffer@,
            flags_of(*changed),
            buffer.width as nat,
            clip_all,
            buffer@.len(),
        ).1,
{
    let n = buffer.cells.len();
    let w = buffer.width;
    let ghost cells = buffer@;
    let ghost dirty = flags_of(*changed);
    let mut last_color: Option<Color> = None;
    let mut index: usize = 0;
    let mut x: usize = 0;
    let mut y: usize = 0;
    proof {
        reveal_strlit(" ");
        vstd::arithmetic::mul::lemma_mul_basics(w as int);
    }
    while index < n
        invariant
            n == buffer.cells.len(),
            n == cells.len(),
            n == dirty.len(),
            cells == buffer@,
            dirty == flags_of(*changed),
            w == buffer.width,
            0 < w <= u16::MAX,
            buffer.height <= u16::MAX,
            n == w * buffer.height,
            index <= n,
            x < w,
            index == y * w + x,
            index < n ==> y < buffer.height,
            " "@ == seq![' '],
            last_color == symbols_upto(cells, dirty, w as nat, clip_all, index as nat).0,
            ops@ == old(ops)@ + symbols_upto(cells, dirty, w as nat, clip_all, index as nat).1,
        decreases n - index,
    {
        proof {
            lemma_col_row(index as int, w as int, x as int, y as int);
        }
        let cell = &buffer.cells[index];
        assert(cells[index as int] == cell@);
        if changed.get(index) && !same_text(cell.symbol.as_str(), " ") {
            let color = actual_fg_color(cell);
            if clip_all || !cell.symbol.as_str().is_ascii() {
                ops.push(CanvasOp::ClipCell(x as u16, y as u16, resolve_color(color, Color::White)));
                last_color = None;
            } else if last_color != Some(color) {
                ops.push(CanvasOp::TextColor(resolve_color(color, Color::White)));
                last_color = Some(color);
            }
            ops.push(CanvasOp::Text(x as u16, y as u16));
        }
        if x + 1 == w {
            x = 0;
            y = y + 1;
        } else {
            x = x + 1;
        }
        index = index + 1;
        proof {
            vstd::arithmetic::mul::lemma_mul_is_distributive_add_other_way(w as int, y as int - 1, 1);
            if index < n && y >= buffer.height {
                vstd::arithmetic::mul::lemma_mul_inequality(buffer.height as int, y as int, w as int);
                vstd::arithmetic::mul::lemma_mul_is_commutative(w as int, buffer.height as int);
            }
        }
    }
}

/// Appends the cursor mark, if the cursor stands on an underlined cell.
fn draw_cursor(buffer: &Grid, cursor: Option<Position>, ops: &mut Vec<CanvasOp>)
    requires
        buffer.wf(),
    ensures
        final(ops)@ == old(ops)@ + cursor_ops(
            buffer@,
            buffer.width as nat,
            buffer.height as nat,
            cursor,
        ),
{
    if let Some(pos) = cursor {
        let x = pos.x as usize;
        let y = pos.y as usize;
        if x < buffer.width && y < buffer.height {
            proof {
                vstd::arithmetic::mul::lemma_mul_inequality(y as int + 1, buffer.height as int, buffer.width as int);
                vstd::arithmetic::mul::lemma_mul_is_distributive_add_other_way(buffer.width as int, y as int, 1);
                vstd::arithmetic::mul::lemma_mul_is_commutative(buffer.width as int, buffer.height as int);
                vstd::arithmetic::mul::lemma_mul_is_commutative(buffer.width as int, y as int);
            }
            let cell = &buffer.cells[y * buffer.width + x];
            assert(buffer@[y * buffer.width + x] == cell@);
            if cell.modifier & MOD_UNDERLINED != 0 {
                ops.push(CanvasOp::CursorMark(pos.x, pos.y));
            }
        }
    }
}

/// Appends an outline around every cell.
fn draw_debug(buffer: &Grid, ops: &mut Vec<CanvasOp>)
    requires
        buffer.wf(),
        buffer.width > 0,
        buffer.width <= u16::MAX,
        buffer.height <= u16::MAX,
    ensures
        final(ops)@ == old(ops)@ + debug_ops(buffer.width as nat, buffer@.len()),
{
    let n = buffer.cells.len();
    let w = buffer.width;
    let mut index: usize = 0;
    let mut x: usize = 0;
    let mut y: usize = 0;
    proof {
        vstd::arithmetic::mul::lemma_mul_basics(w as int);
    }
    while index < n
        invariant
            n == buffer.cells.len(),
            n == buffer@.len(),
            w == buffer.width,
            0 < w <= u16::MAX,
            buffer.height <= u16::MAX,
            n == w * buffer.height,
            index <= n,
            x < w,
            index == y * w + x,
            index < n ==> y < buffer.height,
            ops@ == old(ops)@ + debug_ops(w as nat, index as nat),
        decreases n - index,
    {
        proof {
            lemma_col_row(index as int, w as int, x as int, y as int);
        }
        ops.push(CanvasOp::Outline(x as u16, y as u16));
        assert(ops@ =~= old(ops)@ + debug_ops(w as nat, index as nat + 1));
        if x + 1 == w {
            x = 0;
            y = y + 1;
        } else {
            x = x + 1;
        }
        index = index + 1;
        proof {
            vstd::arithmetic::mul::lemma_mul_is_distributive_add_other_way(w as int, y as int - 1, 1);
            if index < n && y >= buffer.height {
                vstd::arithmetic::mul::lemma_mul_inequality(buffer.height as int, y as int, w as int);
                vstd::arithmetic::mul::lemma_mul_is_commutative(w as int, buffer.height as int);
            }
        }
    }
}

/// The canvas backend: the current grid, the grid presented by the last
/// flush, and the cursor and debug settings.
pub struct CanvasBackend {
    /// Whether a first, full repaint has been made.
    pub initialized: bool,
    /// Clip every symbol to its cell, not only non-ASCII ones.
    pub always_clip_cells: bool,
    /// The current grid.
    pub buffer: Grid,
    /// The grid as of the last flush.
    pub prev_buffer: Grid,
    /// The cells that the last repaint drew.
    pub changed_cells: FlagSet,
    pub cursor_position: Option<Position>,
    pub cursor_shape: CursorShape,
    /// When set, every repaint outlines each cell in this CSS color.
    pub debug_mode: Option<String>,
    /// The color that the reset background color stands for.
    pub background_color: Color,
}

/// The cell-grid size that a canvas of `width` × `height` pixels holds.
pub open spec fn grid_size_spec(width: u32, height: u32) -> (u16, u16) {
    ((width / CELL_WIDTH) as u16, (height / CELL_HEIGHT) as u16)
}

/// The cell-grid size that a canvas of `width` × `height` pixels holds.
pub fn grid_size_for_pixels(width: u32, height: u32) -> (r: (u16, u16))
    requires
        width / CELL_WIDTH <= u16::MAX,
        height / CELL_HEIGHT <= u16::MAX,
    ensures
        r == grid_size_spec(width, height),
{
    ((width / CELL_WIDTH) as u16, (height / CELL_HEIGHT) as u16)
}

impl CanvasBackend {
    /// The grids have the same, non-empty dimensions and the dirty set covers them.
    pub open spec fn wf(&self) -> bool {
        &&& self.buffer.wf()
        &&& self.prev_buffer.wf()
        &&& self.prev_buffer.width == self.buffer.width
        &&& self.prev_buffer.height == self.buffer.height
        &&& flags_of(self.changed_cells).len() == self.buffer.cells.len()
        &&& 0 < self.buffer.width <= u16::MAX
        &&& 0 < self.buffer.height <= u16::MAX
    }

    /// Whether the next repaint clears the canvas and redraws every cell:
    /// on the first flush and whenever debug outlines are on.
    pub open spec fn full_redraw(&self) -> bool {
        !self.initialized || self.debug_mode.is_some()
    }

    /// The operations that the next flush will return: nothing when the grid
    /// is unchanged since the last flush, else the repaint of the frame.
    pub open spec fn flush_ops_spec(&self) -> Seq<CanvasOp> {
        if !self.initialized || self.buffer@ != self.prev_buffer@ {
            frame_ops(
                self.buffer@,
                dirty_flags(self.buffer@, self.prev_buffer@, self.full_redraw()),
                self.buffer.width as nat,
                self.buffer.height as nat,
                self.full_redraw(),
                self.always_clip_cells,
                self.cursor_position,
                self.debug_mode.is_some(),
                self.background_color,
            )
        } else {
            seq![]
        }
    }

    /// `self` is the state that flushing `before` leaves.
    pub open spec fn flushed_from(&self, before: &CanvasBackend) -> bool {
        &&& self.wf()
        &&& self.initialized
        &&& self.buffer@ == before.buffer@
        &&& self.prev_buffer@ == before.buffer@
        &&& self.buffer.width == before.buffer.width
        &&& self.buffer.height == before.buffer.height
        &&& self.always_clip_cells == before.always_clip_cells
        &&& self.cursor_position == before.cursor_position
        &&& self.cursor_shape == before.cursor_shape
        &&& self.debug_mode == before.debug_mode
        &&& self.background_color == before.background_color
    }

    /// A backend whose grids are `width` × `height` blank cells.
    pub fn new_with_grid(width: u16, height: u16, always_clip_cells: bool) -> (r: CanvasBackend)
        requires
            width > 0,
            height > 0,
            width * height <= usize::MAX / 8,
        ensures
            r.wf(),
            !r.initialized,
            r.always_clip_cells == always_clip_cells,
            r.buffer.width == width,
            r.buffer.height == height,
            r.buffer@ == r.prev_buffer@,
            forall|i: int| 0 <= i < r.buffer@.len() ==> r.buffer@[i] == #[trigger] Cell::blank_view(),
            r.cursor_position.is_none(),
            r.cursor_shape == CursorShape::SteadyBlock,
            r.debug_mode.is_none(),
            r.background_color == Color::Black,
    {
        proof {
            vstd::arithmetic::mul::lemma_mul_upper_bound(width as int, 0xffff, height as int, 0xffff);
        }
        let buffer = Grid::new(width as usize, height as usize);
        let prev_buffer = buffer.copy();
        let changed_cells = FlagSet::repeat(false, buffer.cells.len());
        CanvasBackend {
            initialized: false,
            always_clip_cells,
            buffer,
            prev_buffer,
            changed_cells,
            cursor_position: None,
            cursor_shape: CursorShape::SteadyBlock,
            debug_mode: None,
            background_color: Color::Black,
        }
    }

    /// A backend for a canvas of `width` × `height` pixels.
    pub fn new_with_size(width: u32, height: u32) -> (r: CanvasBackend)
        requires
            CELL_WIDTH <= width,
            CELL_HEIGHT <= height,
            width / CELL_WIDTH <= u16::MAX,
            height / CELL_HEIGHT <= u16::MAX,
            (width / CELL_WIDTH) * (height / CELL_HEIGHT) <= usize::MAX / 8,
        ensures
            r.wf(),
            !r.initialized,
            !r.always_clip_cells,
            (r.buffer.width as u16, r.buffer.height as u16) == grid_size_spec(width, height),
            r.cursor_position.is_none(),
    {
        let (cols, rows) = grid_size_for_pixels(width, height);
        CanvasBackend::new_with_grid(cols, rows, false)
    }

    /// Sets the color that the reset background color stands for.
    pub fn set_background_color(&mut self, color: Color)
        ensures
            *final(self) == (CanvasBackend { background_color: color, ..*old(self) }),
    {
        self.background_color = color;
    }

    /// The cursor shape.
    pub fn cursor_shape(&self) -> (r: &CursorShape)
        ensures
            *r == self.cursor_shape,
    {
        &self.cursor_shape
    }

    /// The backend with the given cursor shape.
    pub fn set_cursor_shape(self, shape: CursorShape) -> (r: CanvasBackend)
        ensures
            r == (CanvasBackend { cursor_shape: shape, ..self }),
    {
        CanvasBackend { cursor_shape: shape, ..self }
    }

    /// Turns the cell outlines on (with a CSS color) or off.
    pub fn set_debug_mode(&mut self, color: Option<String>)
        ensures
            *final(self) == (CanvasBackend { debug_mode: color, ..*old(self) }),
    {
        self.debug_mode = color;
    }

    /// Recomputes the dirty set and returns the repaint of the frame.
    fn update_grid(&mut self, force_redraw: bool) -> (ops: Vec<CanvasOp>)
        requires
            old(self).wf(),
        ensures
            final(self).wf(),
            *final(self) == (CanvasBackend { changed_cells: final(self).changed_cells, ..*old(self) }),
            ops@ == frame_ops(
                old(self).buffer@,
                dirty_flags(old(self).buffer@, old(self).prev_buffer@, force_redraw),
                old(self).buffer.width as nat,
                old(self).buffer.height as nat,
                force_redraw,
                old(self).always_clip_cells,
                old(self).cursor_position,
                old(self).debug_mode.is_some(),
                old(self).background_color,
            ),
    {
        let mut ops: Vec<CanvasOp> = Vec::new();
        if force_redraw {
            ops.push(CanvasOp::ClearAll);
        }
        resolve_changed_cells(&self.buffer, &self.prev_buffer, force_redraw, &mut self.changed_cells);
        draw_background(&self.buffer, &self.changed_cells, self.background_color, &mut ops);
        draw_symbols(&self.buffer, &self.changed_cells, self.always_clip_cells, &mut ops);
        draw_cursor(&self.buffer, self.cursor_position, &mut ops);
        if self.debug_mode.is_some() {
            draw_debug(&self.buffer, &mut ops);
        }
        assert(ops@ =~= frame_ops(
            self.buffer@,
            dirty_flags(self.buffer@, self.prev_buffer@, force_redraw),
            self.buffer.width as nat,
            self.buffer.height as nat,
            force_redraw,
            self.always_clip_cells,
            self.cursor_position,
            self.debug_mode.is_some(),
            self.background_color,
        ));
        ops
    }
}

impl CanvasBackend {
    /// Writes each (column, row, cell) of `content` into the grid, then marks
    /// the cell under the cursor with the cursor shape.
    pub fn draw(&mut self, content: &Vec<(u16, u16, Cell)>)
        requires
            old(self).wf(),
            writes_in_bounds(content@, old(self).buffer.width as nat, old(self).buffer.height as nat),
        ensures
            final(self).wf(),
            final(self).buffer.width == old(self).buffer.width,
            final(self).buffer.height == old(self).buffer.height,
            final(self).buffer@ == match old(self).cursor_position {
                Some(p) => with_bits_at(
                    apply_writes(old(self).buffer@, old(self).buffer.width as nat, content_view(content@)),
                    old(self).buffer.width as nat,
                    old(self).buffer.height as nat,
                    p,
                    cursor_bit(old(self).cursor_shape),
                    true,
                ),
                None => apply_writes(old(self).buffer@, old(self).buffer.width as nat, content_view(content@)),
            },
            final(self).prev_buffer == old(self).prev_buffer,
            final(self).initialized == old(self).initialized,
            final(self).cursor_position == old(self).cursor_position,
            final(self).cursor_shape == old(self).cursor_shape,
            final(self).always_clip_cells == old(self).always_clip_cells,
            final(self).debug_mode == old(self).debug_mode,
            final(self).background_color == old(self).background_color,
    {
        self.buffer.write_all(content);
        if let Some(pos) = self.cursor_position {
            let bits = self.cursor_shape.show(0);
            assert(0u16 | cursor_bit(self.cursor_shape) == cursor_bit(self.cursor_shape)) by (bit_vector);
            self.buffer.update_bits_at(pos, bits, true);
        }
    }

    /// Presents the grid: hands the drawing operations of the frame, with
    /// the grid they refer to, to `paint`, and records the grid as presented
    /// when `paint` reports success. The first flush, and any repaint in
    /// debug mode, clears the canvas and repaints everything; other flushes
    /// repaint the changed cells, and nothing when no cell changed.
    pub fn flush<F: FnOnce(&Vec<CanvasOp>, &Grid) -> bool>(&mut self, paint: F) -> (ok: bool)
        requires
            old(self).wf(),
            forall|o: &Vec<CanvasOp>, g: &Grid| #[trigger] paint.requires((o, g)),
        ensures
            exists|o: &Vec<CanvasOp>, g: &Grid|
                o@ == old(self).flush_ops_spec() && g@ == old(self).buffer@ && #[trigger] paint.ensures(
                    (o, g),
                    ok,
                ),
            ok ==> final(self).flushed_from(old(self)),
            !ok ==> *final(self) == (CanvasBackend { changed_cells: final(self).changed_cells, ..*old(self) }),
            final(self).wf(),
    {
        if !self.initialized {
            let ops = self.update_grid(true);
            let ok = paint(&ops, &self.buffer);
            if ok {
                self.prev_buffer = self.buffer.copy();
                self.initialized = true;
            }
            return ok;
        }
        let ops = if !self.buffer.same(&self.prev_buffer) {
            self.update_grid(self.debug_mode.is_some())
        } else {
            Vec::new()
        };
        let ok = paint(&ops, &self.buffer);
        if ok {
            self.prev_buffer = self.buffer.copy();
        }
        ok
    }

    /// Removes the cursor mark from the cell under the cursor and forgets the
    /// cursor position.
    pub fn hide_cursor(&mut self)
        requires
            old(self).wf(),
        ensures
            final(self).wf(),
            final(self).buffer@ == match old(self).cursor_position {
                Some(p) => with_bits_at(
                    old(self).buffer@,
                    old(self).buffer.width as nat,
                    old(self).buffer.height as nat,
                    p,
                    cursor_bit(old(self).cursor_shape),
                    false,
                ),
                None => old(self).buffer@,
            },
            final(self).buffer.width == old(self).buffer.width,
            final(self).buffer.height == old(self).buffer.height,
            final(self).cursor_position.is_none(),
            final(self).prev_buffer == old(self).prev_buffer,
            final(self).initialized == old(self).initialized,
            final(self).cursor_shape == old(self).cursor_shape,
    {
        if let Some(pos) = self.cursor_position {
            let bits = self.cursor_shape.show(0);
            assert(0u16 | cursor_bit(self.cursor_shape) == cursor_bit(self.cursor_shape)) by (bit_vector);
            self.buffer.update_bits_at(pos, bits, false);
        }
        self.cursor_position = None;
    }

    /// Moves the cursor to `position`, removing its mark from the cell it
    /// leaves.
    pub fn set_cursor_position(&mut self, position: Position)
        requires
            old(self).wf(),
        ensures
            final(self).wf(),
            final(self).buffer@ == match old(self).cursor_position {
                Some(p) => if p != position {
                    with_bits_at(
                        old(self).buffer@,
                        old(self).buffer.width as nat,
                        old(self).buffer.height as nat,
                        p,
                        cursor_bit(old(self).cursor_shape),
                        false,
                    )
                } else {
                    old(self).buffer@
                },
                None => old(self).buffer@,
            },
            final(self).buffer.width == old(self).buffer.width,
            final(self).buffer.height == old(self).buffer.height,
            final(self).cursor_position == Some(position),
            final(self).prev_buffer == old(self).prev_buffer,
            final(self).initialized == old(self).initialized,
            final(self).cursor_shape == old(self).cursor_shape,
    {
        if let Some(old_pos) = self.cursor_position {
            if old_pos != position {
                let bits = self.cursor_shape.show(0);
                assert(0u16 | cursor_bit(self.cursor_shape) == cursor_bit(self.cursor_shape)) by (bit_vector);
                self.buffer.update_bits_at(old_pos, bits, false);
            }
        }
        self.cursor_position = Some(position);
    }

    /// The cursor position, or the origin when there is none.
    pub fn get_cursor_position(&self) -> (r: Position)
        ensures
            r == match self.cursor_position {
                Some(p) => p,
                None => Position { x: 0, y: 0 },
            },
    {
        match self.cursor_position {
            Some(p) => p,
            None => Position { x: 0, y: 0 },
        }
    }

    /// Resets every cell of the grid to a blank cell.
    pub fn clear(&mut self)
        requires
            old(self).wf(),
        ensures
            final(self).wf(),
            final(self).buffer.width == old(self).buffer.width,
            final(self).buffer.height == old(self).buffer.height,
            forall|i: int| 0 <= i < final(self).buffer@.len() ==> final(self).buffer@[i] == #[trigger] Cell::blank_view(),
            final(self).prev_buffer == old(self).prev_buffer,
            final(self).initialized == old(self).initialized,
            final(self).cursor_position == old(self).cursor_position,
    {
        self.buffer = Grid::new(self.buffer.width, self.buffer.height);
    }

    /// The usable grid size: one less than the allocated size in each
    /// direction, leaving a safety border.
    pub fn size(&self) -> (r: (u16, u16))
        requires
            self.wf(),
        ensures
            r == ((self.buffer.width - 1) as u16, (self.buffer.height - 1) as u16),
    {
        ((self.buffer.width - 1) as u16, (self.buffer.height - 1) as u16)
    }

    /// The cell at column `x`, row `y`.
    pub fn cell(&self, x: u16, y: u16) -> (r: &Cell)
        requires
            self.wf(),
            x < self.buffer.width,
            y < self.buffer.height,
        ensures
            r@ == self.buffer@[y * self.buffer.width + x],
    {
        proof {
            lemma_index_in_grid(x as int, y as int, self.buffer.width as int, self.buffer.height as int);
        }
        &self.buffer.cells[y as usize * self.buffer.width + x as usize]
    }
}

/// Flushing twice with nothing drawn in between: the second flush returns no
/// drawing operations.
pub proof fn lemma_second_flush_draws_nothing(before: CanvasBackend, after: CanvasBackend)
    requires
        before.wf(),
        after.flushed_from(&before),
    ensures
        after.flush_ops_spec() == Seq::<CanvasOp>::empty(),
{
}

} // verus!
