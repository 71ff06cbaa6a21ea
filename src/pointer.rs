//! Translation of pointer pixel coordinates into grid coordinates.
use vstd::prelude::*;
use crate::event::{button_spec, event_kind_spec, event_type_to_kind, MouseButton, MouseEvent};

verus! {

/// How pointer pixels map onto the grid.
#[derive(Debug, Clone, Copy)]
pub struct MouseConfig {
    /// Grid width in cells.
    pub grid_width: u16,
    /// Grid height in cells.
    pub grid_height: u16,
    /// Pixel offset from the element's edge (padding or translation).
    pub offset: Option<u32>,
    /// Cell width and height in pixels, when they are fixed.
    pub cell_dimensions: Option<(u32, u32)>,
}

/// An element's bounding box on the page, in whole pixels.
#[derive(Debug, Clone, Copy, PartialEq, Eq, Structural)]
pub struct ElementRect {
    pub left: i32,
    pub top: i32,
    pub width: i32,
    pub height: i32,
}

impl MouseConfig {
    /// A configuration for a `grid_width` × `grid_height` grid, with no offset
    /// and no fixed cell size.
    pub fn new(grid_width: u16, grid_height: u16) -> (r: MouseConfig)
        ensures
            r == (MouseConfig { grid_width, grid_height, offset: None, cell_dimensions: None }),
    {
        MouseConfig { grid_width, grid_height, offset: None, cell_dimensions: None }
    }

    /// Sets the pixel offset from the element's edge.
    pub fn with_offset(self, offset: u32) -> (r: MouseConfig)
        ensures
            r == (MouseConfig { offset: Some(offset), ..self }),
    {
        MouseConfig { offset: Some(offset), ..self }
    }

    /// Sets the cell size in pixels.
    pub fn with_cell_dimensions(self, width: u32, height: u32) -> (r: MouseConfig)
        ensures
            r == (MouseConfig { cell_dimensions: Some((width, height)), ..self }),
    {
        MouseConfig { cell_dimensions: Some((width, height)), ..self }
    }
}

/// `a`, or zero when `a` is negative.
pub open spec fn clamp_zero(a: int) -> int {
    if a < 0 {
        0
    } else {
        a
    }
}

/// The cell index along one axis: the share `rel / drawable` of `cells`
/// cells, rounded down and kept below `cells` (zero for an empty axis).
pub open spec fn axis_cell(rel: int, drawable: int, cells: int) -> int {
    let q = rel * cells / drawable;
    let last = if cells > 0 { cells - 1 } else { 0 };
    if q < last {
        q
    } else {
        last
    }
}

/// The drawable width and height: the cell size times the grid size when
/// the cell size is fixed, else the element's size less the offset on each
/// side.
pub open spec fn drawable_spec(rect: ElementRect, config: MouseConfig) -> (int, int) {
    let offset = match config.offset {
        Some(o) => o as int,
        None => 0,
    };
    match config.cell_dimensions {
        Some((cw, ch)) => (config.grid_width * cw, config.grid_height * ch),
        None => (rect.width - 2 * offset, rect.height - 2 * offset),
    }
}

/// The grid cell under the pointer at page pixel (`x`, `y`): the position
/// relative to the element less the offset, clamped to zero, scaled from the
/// drawable area to the grid, and clamped to the grid; the origin when the
/// drawable area is empty.
pub open spec fn grid_coords_spec(x: i32, y: i32, rect: ElementRect, config: MouseConfig) -> (u16, u16) {
    let offset = match config.offset {
        Some(o) => o as int,
        None => 0,
    };
    let rel_x = clamp_zero(x - rect.left - offset);
    let rel_y = clamp_zero(y - rect.top - offset);
    let (dw, dh) = drawable_spec(rect, config);
    if dw <= 0 || dh <= 0 {
        (0, 0)
    } else {
        (
            axis_cell(rel_x, dw, config.grid_width as int) as u16,
            axis_cell(rel_y, dh, config.grid_height as int) as u16,
        )
    }
}

fn axis_cell_exec(rel: i64, drawable: i64, cells: u16) -> (r: u16)
    requires
        0 <= rel <= 0x2_0000_0000,
        0 < drawable,
    ensures
        r == axis_cell(rel as int, drawable as int, cells as int),
{
    assert(0 <= rel * (cells as i64) <= 0x2_0000_0000 * 0x10000) by (nonlinear_arith)
        requires
            0 <= rel <= 0x2_0000_0000,
            cells <= 0xffff,
    ;
    let p = rel * (cells as i64);
    let q = p / drawable;
    assert(q <= p) by (nonlinear_arith)
        requires
            q == p / drawable,
            drawable > 0,
            p >= 0,
    ;
    let last: i64 = if cells > 0 { cells as i64 - 1 } else { 0 };
    if q < last {
        q as u16
    } else {
        last as u16
    }
}

/// Translates page pixel coordinates into the grid cell under the pointer.
pub fn mouse_to_grid_coords(x: i32, y: i32, rect: ElementRect, config: &MouseConfig) -> (r: (u16, u16))
    ensures
        r == grid_coords_spec(x, y, rect, *config),
{
    let offset: i64 = match config.offset {
        Some(o) => o as i64,
        None => 0,
    };
    let dx = x as i64 - rect.left as i64 - offset;
    let dy = y as i64 - rect.top as i64 - offset;
    let rel_x: i64 = if dx < 0 { 0 } else { dx };
    let rel_y: i64 = if dy < 0 { 0 } else { dy };
    let (dw, dh): (i64, i64) = match config.cell_dimensions {
        Some((cw, ch)) => {
            assert(config.grid_width as i64 * cw as i64 <= 0xffff * 0xffff_ffff) by (nonlinear_arith)
                requires
                    config.grid_width <= 0xffff,
                    cw <= 0xffff_ffff,
            ;
            assert(config.grid_height as i64 * ch as i64 <= 0xffff * 0xffff_ffff) by (nonlinear_arith)
                requires
                    config.grid_height <= 0xffff,
                    ch <= 0xffff_ffff,
            ;
            (config.grid_width as i64 * cw as i64, config.grid_height as i64 * ch as i64)
        },
        None => (rect.width as i64 - 2 * offset, rect.height as i64 - 2 * offset),
    };
    if dw <= 0 || dh <= 0 {
        return (0, 0);
    }
    (axis_cell_exec(rel_x, dw, config.grid_width), axis_cell_exec(rel_y, dh, config.grid_height))
}

/// A mouse event in grid coordinates from the browser's event type, button
/// number, page pixel position and modifier keys.
pub fn create_mouse_event(
    event_type: &str,
    button: i16,
    x: i32,
    y: i32,
    rect: ElementRect,
    config: &MouseConfig,
    ctrl: bool,
    alt: bool,
    shift: bool,
) -> (r: MouseEvent)
    ensures
        r == (MouseEvent {
            kind: event_kind_spec(event_type@, button_spec(button)),
            col: grid_coords_spec(x, y, rect, *config).0,
            row: grid_coords_spec(x, y, rect, *config).1,
            ctrl,
            alt,
            shift,
        }),
{
    let (col, row) = mouse_to_grid_coords(x, y, rect, config);
    let button = MouseButton::from_code(button);
    MouseEvent { kind: event_type_to_kind(event_type, button), col, row, ctrl, alt, shift }
}

} // verus!
