//! The DOM-element renderer: one element per cell, updated only where the
//! backing cell changes.
use vstd::prelude::*;
use vstd::utf8::is_ascii_chars;
use unicode_width::UnicodeWidthStr;
use crate::cell::{copy_text, Cell, CellView, Position};
use crate::cursor::CursorShape;
use crate::grid::{content_view, lemma_index_in_grid, writes_in_bounds};

verus! {

/// The display width of a string in terminal columns, as Unicode Standard
/// Annex #11 gives it (ambiguous characters count as one column).
pub uninterp spec fn display_width(s: Seq<char>) -> nat;

/// Relies on `unicode_width::UnicodeWidthStr::width` for `str`: the display
/// width of the string, which depends on its characters alone; the empty
/// string has width zero.
#[verifier::external_body]
fn str_width(s: &str) -> (r: usize)
    ensures
        r as nat == display_width(s@),
        s@.len() == 0 ==> r == 0,
{
    s.width()
}

/// Options of the DOM backend.
#[derive(Debug, Default)]
pub struct DomBackendOptions {
    /// The element ID.
    pub grid_id: Option<String>,
    /// The cursor shape.
    pub cursor_shape: CursorShape,
}

impl DomBackendOptions {
    /// Options with the given element ID and cursor shape.
    pub fn new(grid_id: Option<String>, cursor_shape: CursorShape) -> (r: DomBackendOptions)
        ensures
            r.grid_id == grid_id,
            r.cursor_shape == cursor_shape,
    {
        DomBackendOptions { grid_id, cursor_shape }
    }

    /// The ID of the grid element: `"grid"` when no element ID is set, else
    /// the element ID followed by `"_ratzilla_grid"`.
    pub fn grid_id(&self) -> (r: String)
        ensures
            r@ == match self.grid_id {
                Some(id) => id@ + "_ratzilla_grid"@,
                None => "grid"@,
            },
    {
        match &self.grid_id {
            Some(id) => {
                let mut r = copy_text(id.as_str());
                r.append("_ratzilla_grid");
                r
            },
            None => String::from_str("grid"),
        }
    }

    /// The cursor shape.
    pub fn cursor_shape(&self) -> (r: &CursorShape)
        ensures
            *r == self.cursor_shape,
    {
        &self.cursor_shape
    }
}

/// One update of the cell elements.
#[derive(Debug, Clone, Copy, PartialEq, Eq, Structural)]
pub enum DomOp {
    /// Rebuild the grid: `width` × `height` blank cell elements.
    Populate { width: u16, height: u16 },
    /// Give element `element` the symbol and style of item `item` of the batch.
    Write { element: usize, item: usize },
    /// Empty element `element` and give it the default style.
    Blank { element: usize },
    /// Set the cursor's CSS property of element `element` for `shape`.
    Cursor { element: usize, shape: CursorShape },
}

/// Whether a string takes more than one byte in UTF-8: anything but the
/// empty string and a single ASCII character.
pub open spec fn over_one_byte(s: Seq<char>) -> bool {
    !(s.len() == 0 || (s.len() == 1 && is_ascii_chars(s)))
}

/// Whether a symbol is a full-width glyph that covers the next cell too.
pub open spec fn is_wide(s: Seq<char>) -> bool {
    over_one_byte(s) && display_width(s) == 2
}

/// The updates for the first `k` writes of a batch on a grid `width` cells
/// wide with `count` elements: each write updates its element, and a wide
/// glyph also blanks the next element, if there is one.
pub open spec fn write_ops(content: Seq<(u16, u16, CellView)>, width: nat, count: nat, k: nat) -> Seq<DomOp>
    decreases k,
{
    if k == 0 {
        seq![]
    } else {
        let t = content[k - 1];
        let e = t.1 * width + t.0;
        write_ops(content, width, count, (k - 1) as nat) + seq![DomOp::Write { element: e as usize, item: (k - 1) as usize }]
            + if is_wide(t.2.symbol) && e + 1 < count {
            seq![DomOp::Blank { element: (e + 1) as usize }]
        } else {
            seq![]
        }
    }
}

/// The element index of a cursor position inside a `width` × `height` grid.
pub open spec fn element_of(p: Position, width: u16, height: u16) -> Option<usize> {
    if p.x < width && p.y < height {
        Some((p.y * width + p.x) as usize)
    } else {
        None
    }
}

/// The DOM backend's state: the grid size, whether the elements are built,
/// and the current and previous cursor positions.
pub struct DomBackend {
    /// Whether the cell elements match the current size.
    pub initialized: bool,
    pub width: u16,
    pub height: u16,
    pub options: DomBackendOptions,
    pub cursor_position: Option<Position>,
    pub last_cursor_position: Option<Position>,
}

/// Whether a symbol is a full-width glyph that covers the next cell too.
fn wide_symbol(s: &str) -> (r: bool)
    ensures
        r == is_wide(s@),
{
    let n = s.unicode_len();
    let over_one = !(n == 0 || (n == 1 && s.is_ascii()));
    over_one && str_width(s) == 2
}

/// The cursor element update for `p`, if it lies inside the grid.
fn push_cursor_op(ops: &mut Vec<DomOp>, p: Position, width: u16, height: u16, shape: CursorShape)
    ensures
        final(ops)@ == old(ops)@ + match element_of(p, width, height) {
            Some(e) => seq![DomOp::Cursor { element: e, shape }],
            None => seq![],
        },
{
    if p.x < width && p.y < height {
        proof {
            lemma_index_in_grid(p.x as int, p.y as int, width as int, height as int);
            vstd::arithmetic::mul::lemma_mul_upper_bound(width as int, 0xffff, height as int, 0xffff);
        }
        ops.push(DomOp::Cursor { element: p.y as usize * width as usize + p.x as usize, shape });
    }
}

impl DomBackend {
    /// A backend for a `width` × `height` grid; the elements are built by the
    /// first draw.
    pub fn new(width: u16, height: u16, options: DomBackendOptions) -> (r: DomBackend)
        ensures
            !r.initialized,
            r.width == width,
            r.height == height,
            r.options == options,
            r.cursor_position.is_none(),
            r.last_cursor_position.is_none(),
    {
        DomBackend {
            initialized: false,
            width,
            height,
            options,
            cursor_position: None,
            last_cursor_position: None,
        }
    }

    /// Records a new grid size after the window was resized; the next draw
    /// rebuilds the elements.
    pub fn on_resize(&mut self, width: u16, height: u16)
        ensures
            *final(self) == (DomBackend { initialized: false, width, height, ..*old(self) }),
    {
        self.initialized = false;
        self.width = width;
        self.height = height;
    }

    /// The backend with the given cursor shape.
    pub fn set_cursor_shape(self, shape: CursorShape) -> (r: DomBackend)
        ensures
            r.options.cursor_shape == shape,
            r.options.grid_id == self.options.grid_id,
            r == (DomBackend { options: r.options, ..self }),
    {
        let DomBackend { initialized, width, height, options, cursor_position, last_cursor_position } = self;
        DomBackend {
            initialized,
            width,
            height,
            options: DomBackendOptions { grid_id: options.grid_id, cursor_shape: shape },
            cursor_position,
            last_cursor_position,
        }
    }

    /// The element updates for a batch of (column, row, cell) writes. Before
    /// the first batch after a resize the elements are rebuilt and the cursor
    /// positions forgotten.
    pub fn draw(&mut self, content: &Vec<(u16, u16, Cell)>) -> (ops: Vec<DomOp>)
        requires
            writes_in_bounds(content@, old(self).width as nat, old(self).height as nat),
        ensures
            final(self).initialized,
            final(self).width == old(self).width,
            final(self).height == old(self).height,
            final(self).options == old(self).options,
            old(self).initialized ==> {
                &&& final(self).cursor_position == old(self).cursor_position
                &&& final(self).last_cursor_position == old(self).last_cursor_position
            },
            !old(self).initialized ==> {
                &&& final(self).cursor_position.is_none()
                &&& final(self).last_cursor_position.is_none()
            },
            ops@ == (if old(self).initialized {
                seq![]
            } else {
                seq![DomOp::Populate { width: old(self).width, height: old(self).height }]
            }) + write_ops(
                content_view(content@),
                old(self).width as nat,
                old(self).width as nat * old(self).height as nat,
                content@.len(),
            ),
    {
        let mut ops: Vec<DomOp> = Vec::new();
        if !self.initialized {
            self.initialized = true;
            self.cursor_position = None;
            self.last_cursor_position = None;
            ops.push(DomOp::Populate { width: self.width, height: self.height });
        }
        let ghost start = ops@;
        let ghost cv = content_view(content@);
        proof {
            vstd::arithmetic::mul::lemma_mul_upper_bound(self.width as int, 0xffff, self.height as int, 0xffff);
        }
        let count = self.width as usize * self.height as usize;
        let mut k: usize = 0;
        while k < content.len()
            invariant
                k <= content.len(),
                cv == content_view(content@),
                count == self.width * self.height,
                writes_in_bounds(content@, self.width as nat, self.height as nat),
                ops@ == start + write_ops(cv, self.width as nat, count as nat, k as nat),
            decreases content.len() - k,
        {
            let x = content[k].0;
            let y = content[k].1;
            proof {
                lemma_index_in_grid(x as int, y as int, self.width as int, self.height as int);
            }
            let element = y as usize * self.width as usize + x as usize;
            ops.push(DomOp::Write { element, item: k });
            if wide_symbol(content[k].2.symbol.as_str()) && element + 1 < count {
                ops.push(DomOp::Blank { element: element + 1 });
            }
            proof {
                assert(cv[k as int] == (x, y, content@[k as int].2@));
                assert(ops@ =~= start + write_ops(cv, self.width as nat, count as nat, k as nat + 1));
            }
            k += 1;
        }
        ops
    }

    /// Clears the cursor's CSS property on the cell under the cursor.
    pub fn hide_cursor(&self) -> (ops: Vec<DomOp>)
        ensures
            ops@ == match self.cursor_position {
                Some(p) => match element_of(p, self.width, self.height) {
                    Some(e) => seq![DomOp::Cursor { element: e, shape: CursorShape::NoShape }],
                    None => seq![],
                },
                None => seq![],
            },
    {
        let mut ops: Vec<DomOp> = Vec::new();
        if let Some(p) = self.cursor_position {
            push_cursor_op(&mut ops, p, self.width, self.height, CursorShape::NoShape);
        }
        ops
    }

    /// Clears the cursor's CSS property at the previous cursor position, then
    /// sets it for the cursor shape at the current one.
    pub fn show_cursor(&self) -> (ops: Vec<DomOp>)
        ensures
            ops@ == match self.last_cursor_position {
                Some(p) => match element_of(p, self.width, self.height) {
                    Some(e) => seq![DomOp::Cursor { element: e, shape: CursorShape::NoShape }],
                    None => seq![],
                },
                None => seq![],
            } + match self.cursor_position {
                Some(p) => match element_of(p, self.width, self.height) {
                    Some(e) => seq![DomOp::Cursor { element: e, shape: self.options.cursor_shape }],
                    None => seq![],
                },
                None => seq![],
            },
    {
        let mut ops: Vec<DomOp> = Vec::new();
        if let Some(p) = self.last_cursor_position {
            push_cursor_op(&mut ops, p, self.width, self.height, CursorShape::NoShape);
        }
        if let Some(p) = self.cursor_position {
            push_cursor_op(&mut ops, p, self.width, self.height, self.options.cursor_shape);
        }
        ops
    }

    /// Moves the cursor to `position`, remembering where it was.
    pub fn set_cursor_position(&mut self, position: Position)
        ensures
            *final(self) == (DomBackend {
                last_cursor_position: old(self).cursor_position,
                cursor_position: Some(position),
                ..*old(self)
            }),
    {
        self.last_cursor_position = self.cursor_position;
        self.cursor_position = Some(position);
    }

    /// Blanks every cell element.
    pub fn clear(&self) -> (ops: Vec<DomOp>)
        ensures
            ops@ == Seq::new(
                (self.width * self.height) as nat,
                |i: int| DomOp::Blank { element: i as usize },
            ),
    {
        proof {
            vstd::arithmetic::mul::lemma_mul_upper_bound(self.width as int, 0xffff, self.height as int, 0xffff);
        }
        let count = self.width as usize * self.height as usize;
        let mut ops: Vec<DomOp> = Vec::new();
        let mut i: usize = 0;
        while i < count
            invariant
                i <= count,
                count == self.width * self.height,
                ops@ == Seq::new(i as nat, |j: int| DomOp::Blank { element: j as usize }),
            decreases count - i,
        {
            ops.push(DomOp::Blank { element: i });
            i += 1;
            assert(ops@ =~= Seq::new(i as nat, |j: int| DomOp::Blank { element: j as usize }));
        }
        ops
    }

    /// The cursor position, or the origin when there is none.
    pub fn get_cursor_position(&self) -> (r: Position)
        ensures
            r == match self.cursor_position {
                Some(p) => p,
                None => Position { x: 0, y: 0 },
            },
    {
        match self.cursor_position {
            Some(p) => p,
            None => Position { x: 0, y: 0 },
        }
    }

    /// The usable grid size: one less than the element grid in each direction.
    pub fn size(&self) -> (r: (u16, u16))
        ensures
            r.0 == if self.width > 0 { self.width - 1 } else { 0 },
            r.1 == if self.height > 0 { self.height - 1 } else { 0 },
    {
        (
            if self.width > 0 { self.width - 1 } else { 0 },
            if self.height > 0 { self.height - 1 } else { 0 },
        )
    }
}

} // verus!
