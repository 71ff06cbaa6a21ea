//! Batching of background fills: consecutive changed cells of one row that
//! share a color are merged into one rectangle.
use vstd::prelude::*;
use crate::cell::{Color, Rect};

verus! {

/// A rectangle of cells and the color that fills it.
pub type Region = (Rect, Color);

/// The one-cell rectangle at column `x`, row `y`.
pub open spec fn unit_rect(x: u16, y: u16) -> Rect {
    Rect { x, y, width: 1, height: 1 }
}

/// The pending region after feeding the cell at (`x`, `y`) of color `color`,
/// and the region emitted by that step, if any.
pub open spec fn process_spec(pending: Option<Region>, x: u16, y: u16, color: Color) -> (Option<
    Region,
>, Option<Region>) {
    match pending {
        None => (Some((unit_rect(x, y), color)), None),
        Some((r, c)) => if c == color {
            (Some((Rect { width: (r.width + 1) as u16, ..r }, c)), None)
        } else {
            (Some((unit_rect(x, y), color)), Some((r, c)))
        },
    }
}

/// Whether feeding a cell of `color` can extend the pending region without
/// overflowing its width.
pub open spec fn can_process(pending: Option<Region>, color: Color) -> bool {
    match pending {
        Some((r, c)) => c == color ==> r.width < u16::MAX,
        None => true,
    }
}

/// Merges consecutive cells of one row that share a background color.
pub struct RowColorOptimizer {
    /// The region being accumulated, with its color.
    pub pending_region: Option<Region>,
}

impl RowColorOptimizer {
    /// An optimizer with no pending region.
    pub fn new() -> (r: RowColorOptimizer)
        ensures
            r.pending_region.is_none(),
    {
        RowColorOptimizer { pending_region: None }
    }

    /// Feeds the cell at `pos` (column, row) with background `color`. Extends
    /// the pending region when its color is `color`; otherwise returns the
    /// pending region and starts a new one at `pos`.
    pub fn process_color(&mut self, pos: (u16, u16), color: Color) -> (r: Option<Region>)
        requires
            can_process(old(self).pending_region, color),
        ensures
            (final(self).pending_region, r) == process_spec(
                old(self).pending_region,
                pos.0,
                pos.1,
                color,
            ),
    {
        match self.pending_region {
            Some((active_rect, active_color)) => {
                if active_color == color {
                    let grown = Rect { width: active_rect.width + 1, ..active_rect };
                    self.pending_region = Some((grown, active_color));
                    None
                } else {
                    self.pending_region = Some((Rect { x: pos.0, y: pos.1, width: 1, height: 1 }, color));
                    Some((active_rect, active_color))
                }
            },
            None => {
                self.pending_region = Some((Rect { x: pos.0, y: pos.1, width: 1, height: 1 }, color));
                None
            },
        }
    }

    /// Returns the pending region, if any, and clears it.
    pub fn flush(&mut self) -> (r: Option<Region>)
        ensures
            r == old(self).pending_region,
            final(self).pending_region.is_none(),
    {
        self.pending_region.take()
    }
}

} // verus!
