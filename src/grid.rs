//! The cell grid and the change tracker that compares two grids.
use vstd::prelude::*;
use crate::bits::{flags_of, FlagSet};
use crate::cell::{Cell, CellView, Position};

verus! {

/// A `width` × `height` grid of cells, stored row by row.
pub struct Grid {
    pub width: usize,
    pub height: usize,
    pub cells: Vec<Cell>,
}

/// The flag of cell `i` is set iff `force` holds or the cell differs between
/// `current` and `previous`.
pub open spec fn dirty_flags(current: Seq<CellView>, previous: Seq<CellView>, force: bool) -> Seq<
    bool,
> {
    Seq::new(current.len(), |i: int| force || current[i] != previous[i])
}

impl View for Grid {
    type V = Seq<CellView>;

    open spec fn view(&self) -> Seq<CellView> {
        self.cells@.map_values(|c: Cell| c@)
    }
}

impl Grid {
    /// The grid holds exactly `width × height` cells.
    pub open spec fn wf(&self) -> bool {
        self.cells.len() == self.width * self.height
    }

    /// The row-major index of column `x`, row `y`.
    pub open spec fn index_of(&self, x: int, y: int) -> int {
        y * self.width + x
    }

    /// A grid of blank cells.
    pub fn new(width: usize, height: usize) -> (r: Grid)
        requires
            width * height <= usize::MAX,
        ensures
            r.wf(),
            r.width == width,
            r.height == height,
            forall|i: int| 0 <= i < r@.len() ==> r@[i] == #[trigger] Cell::blank_view(),
    {
        let n = width * height;
        let mut cells: Vec<Cell> = Vec::new();
        let mut i: usize = 0;
        while i < n
            invariant
                i <= n,
                cells.len() == i,
                forall|j: int| 0 <= j < i ==> cells@[j]@ == #[trigger] Cell::blank_view(),
            decreases n - i,
        {
            cells.push(Cell::blank());
            i += 1;
        }
        Grid { width, height, cells }
    }

    /// An equal copy of this grid.
    pub fn copy(&self) -> (r: Grid)
        ensures
            r.width == self.width,
            r.height == self.height,
            r.cells.len() == self.cells.len(),
            r@ == self@,
    {
        let mut cells: Vec<Cell> = Vec::new();
        let mut i: usize = 0;
        while i < self.cells.len()
            invariant
                i <= self.cells.len(),
                cells.len() == i,
                forall|j: int| 0 <= j < i ==> cells@[j]@ == self.cells@[j]@,
            decreases self.cells.len() - i,
        {
            cells.push(self.cells[i].copy());
            i += 1;
        }
        let r = Grid { width: self.width, height: self.height, cells };
        assert(r@ =~= self@);
        r
    }

    /// Whether two grids hold the same cells.
    pub fn same(&self, other: &Grid) -> (r: bool)
        ensures
            r == (self@ == other@),
    {
        if self.cells.len() != other.cells.len() {
            assert(self@.len() != other@.len());
            return false;
        }
        let mut i: usize = 0;
        while i < self.cells.len()
            invariant
                i <= self.cells.len(),
                self.cells.len() == other.cells.len(),
                forall|j: int| 0 <= j < i ==> self@[j] == other@[j],
            decreases self.cells.len() - i,
        {
            if !self.cells[i].same(&other.cells[i]) {
                assert(self@[i as int] != other@[i as int]);
                return false;
            }
            i += 1;
        }
        assert(self@ =~= other@);
        true
    }

    /// Replaces the cell at `index`.
    pub fn set_cell(&mut self, index: usize, cell: Cell)
        requires
            index < old(self).cells.len(),
        ensures
            final(self).width == old(self).width,
            final(self).height == old(self).height,
            final(self).cells.len() == old(self).cells.len(),
            final(self)@ == old(self)@.update(index as int, cell@),
    {
        self.cells.set(index, cell);
        assert(self@ =~= old(self)@.update(index as int, cell@));
    }

    /// Replaces the modifier bits of the cell at `index`.
    pub fn set_modifier(&mut self, index: usize, modifier: u16)
        requires
            index < old(self).cells.len(),
        ensures
            final(self).width == old(self).width,
            final(self).height == old(self).height,
            final(self).cells.len() == old(self).cells.len(),
            final(self)@ == old(self)@.update(index as int, CellView { modifier, ..old(self)@[index as int] }),
    {
        let mut c = self.cells[index].copy();
        c.modifier = modifier;
        self.set_cell(index, c);
    }
}

/// Recomputes the dirty flags of `current` against `previous`: flag `i` is set
/// iff `force` holds or cell `i` differs between the two grids.
pub fn resolve_changed_cells(current: &Grid, previous: &Grid, force: bool, changed: &mut FlagSet)
    requires
        current.cells.len() == previous.cells.len(),
        flags_of(*old(changed)).len() == current.cells.len(),
    ensures
        flags_of(*final(changed)) == dirty_flags(current@, previous@, force),
{
    let n = current.cells.len();
    let mut index: usize = 0;
    while index < n
        invariant
            n == current.cells.len(),
            n == previous.cells.len(),
            n == current@.len(),
            n == previous@.len(),
            index <= n,
            flags_of(*changed).len() == n,
            forall|j: int|
                0 <= j < index ==> #[trigger] flags_of(*changed)[j] == (force || current@[j]
                    != previous@[j]),
        decreases n - index,
    {
        let differs = !current.cells[index].same(&previous.cells[index]);
        assert(current@[index as int] == current.cells@[index as int]@);
        assert(previous@[index as int] == previous.cells@[index as int]@);
        changed.set(index, force || differs);
        index += 1;
    }
    assert(flags_of(*changed) =~= dirty_flags(current@, previous@, force));
}

/// Change tracking is exact: without `force` a cell is flagged exactly when it
/// differs between the two grids, and with `force` every cell is flagged.
pub proof fn lemma_change_tracking(g1: Seq<CellView>, g2: Seq<CellView>)
    requires
        g1.len() == g2.len(),
    ensures
        dirty_flags(g1, g2, false).len() == g1.len(),
        forall|i: int| 0 <= i < g1.len() ==> (#[trigger] dirty_flags(g1, g2, false)[i] <==> g1[i] != g2[i]),
        forall|i: int| 0 <= i < g1.len() ==> #[trigger] dirty_flags(g1, g2, true)[i],
{
}

/// The views of the cells of a list of writes.
pub open spec fn content_view(content: Seq<(u16, u16, Cell)>) -> Seq<(u16, u16, CellView)> {
    content.map_values(|t: (u16, u16, Cell)| (t.0, t.1, t.2@))
}

/// Every write of `content` lands inside a `width` × `height` grid.
pub open spec fn writes_in_bounds(content: Seq<(u16, u16, Cell)>, width: nat, height: nat) -> bool {
    forall|i: int| 0 <= i < content.len() ==> #[trigger] content[i].0 < width && content[i].1 < height
}

/// The cells after each write (column, row, cell) of `content`, in order.
pub open spec fn apply_writes(g: Seq<CellView>, width: nat, content: Seq<(u16, u16, CellView)>) -> Seq<
    CellView,
>
    decreases content.len(),
{
    if content.len() == 0 {
        g
    } else {
        let t = content.last();
        apply_writes(g, width, content.drop_last()).update(t.1 * width + t.0, t.2)
    }
}

/// The cells with modifier bits `bits` added to (`set`) or removed from the
/// cell at `pos`, if it lies inside the grid.
pub open spec fn with_bits_at(g: Seq<CellView>, width: nat, height: nat, pos: Position, bits: u16, set: bool) -> Seq<CellView> {
    if pos.x < width && pos.y < height {
        let i = pos.y * width + pos.x;
        let m = if set { g[i].modifier | bits } else { g[i].modifier & !bits };
        g.update(i, CellView { modifier: m, ..g[i] })
    } else {
        g
    }
}

/// A cell inside a `w` × `h` grid has a row-major index below `w * h`.
pub proof fn lemma_index_in_grid(x: int, y: int, w: int, h: int)
    requires
        0 <= x < w,
        0 <= y < h,
    ensures
        0 <= y * w + x < w * h,
{
    vstd::arithmetic::mul::lemma_mul_inequality(y + 1, h, w);
    vstd::arithmetic::mul::lemma_mul_is_distributive_add_other_way(w, y, 1);
    vstd::arithmetic::mul::lemma_mul_is_commutative(w, h);
    vstd::arithmetic::mul::lemma_mul_is_commutative(w, y);
    vstd::arithmetic::mul::lemma_mul_nonnegative(y, w);
}

impl Grid {
    /// Applies the writes of `content` in order.
    pub fn write_all(&mut self, content: &Vec<(u16, u16, Cell)>)
        requires
            old(self).wf(),
            writes_in_bounds(content@, old(self).width as nat, old(self).height as nat),
        ensures
            final(self).wf(),
            final(self).width == old(self).width,
            final(self).height == old(self).height,
            final(self)@ == apply_writes(old(self)@, old(self).width as nat, content_view(content@)),
    {
        let mut i: usize = 0;
        while i < content.len()
            invariant
                i <= content.len(),
                self.wf(),
                self.width == old(self).width,
                self.height == old(self).height,
                writes_in_bounds(content@, self.width as nat, self.height as nat),
                self@ == apply_writes(old(self)@, self.width as nat, content_view(content@).take(i as int)),
            decreases content.len() - i,
        {
            let x = content[i].0 as usize;
            let y = content[i].1 as usize;
            proof {
                lemma_index_in_grid(x as int, y as int, self.width as int, self.height as int);
            }
            let c = content[i].2.copy();
            self.set_cell(y * self.width + x, c);
            proof {
                let cv = content_view(content@);
                assert(cv.take(i as int + 1).drop_last() =~= cv.take(i as int));
            }
            i += 1;
        }
        assert(content_view(content@).take(content.len() as int) =~= content_view(content@));
    }

    /// Adds (`set`) or removes modifier bits `bits` on the cell at `pos`, if it
    /// lies inside the grid.
    pub fn update_bits_at(&mut self, pos: Position, bits: u16, set: bool)
        requires
            old(self).wf(),
        ensures
            final(self).wf(),
            final(self).width == old(self).width,
            final(self).height == old(self).height,
            final(self)@ == with_bits_at(old(self)@, old(self).width as nat, old(self).height as nat, pos, bits, set),
    {
        let x = pos.x as usize;
        let y = pos.y as usize;
        if x < self.width && y < self.height {
            proof {
                lemma_index_in_grid(x as int, y as int, self.width as int, self.height as int);
            }
            let i = y * self.width + x;
            assert(self@[i as int] == self.cells@[i as int]@);
            let m = if set { self.cells[i].modifier | bits } else { self.cells[i].modifier & !bits };
            self.set_modifier(i, m);
        }
    }
}

} // verus!
