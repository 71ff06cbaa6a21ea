//! Grid cells, colors, style modifiers and grid coordinates.
use vstd::prelude::*;

verus! {

/// Bold text.
pub const MOD_BOLD: u16 = 0x0001;
/// Dimmed text.
pub const MOD_DIM: u16 = 0x0002;
/// Italic text.
pub const MOD_ITALIC: u16 = 0x0004;
/// Underlined text.
pub const MOD_UNDERLINED: u16 = 0x0008;
/// Slowly blinking text.
pub const MOD_SLOW_BLINK: u16 = 0x0010;
/// Rapidly blinking text.
pub const MOD_RAPID_BLINK: u16 = 0x0020;
/// Foreground and background colors swapped.
pub const MOD_REVERSED: u16 = 0x0040;
/// Hidden text.
pub const MOD_HIDDEN: u16 = 0x0080;
/// Struck-through text.
pub const MOD_CROSSED_OUT: u16 = 0x0100;
/// The modifier pair that marks a cell as part of a hyperlink.
pub const MOD_HYPERLINK: u16 = 0x0018;

/// A terminal color.
#[derive(Clone, Copy, Debug, PartialEq, Eq, Structural)]
pub enum Color {
    /// The color the surface falls back to.
    Reset,
    Black,
    Red,
    Green,
    Yellow,
    Blue,
    Magenta,
    Cyan,
    Gray,
    DarkGray,
    LightRed,
    LightGreen,
    LightYellow,
    LightBlue,
    LightMagenta,
    LightCyan,
    White,
    /// A 24-bit color.
    Rgb(u8, u8, u8),
    /// An entry of the 256-color palette.
    Indexed(u8),
}

/// A grid coordinate: column `x`, row `y`.
#[derive(Clone, Copy, Debug, PartialEq, Eq, Structural)]
pub struct Position {
    pub x: u16,
    pub y: u16,
}

/// An axis-aligned rectangle of cells.
#[derive(Clone, Copy, Debug, PartialEq, Eq, Structural)]
pub struct Rect {
    pub x: u16,
    pub y: u16,
    pub width: u16,
    pub height: u16,
}

/// One character position of the grid.
#[derive(Debug)]
pub struct Cell {
    /// The text drawn in the cell (a grapheme, possibly empty).
    pub symbol: String,
    pub fg: Color,
    pub bg: Color,
    /// Style modifier bits (`MOD_*`).
    pub modifier: u16,
}

/// What a cell holds, as a value.
pub struct CellView {
    pub symbol: Seq<char>,
    pub fg: Color,
    pub bg: Color,
    pub modifier: u16,
}

impl View for Cell {
    type V = CellView;

    open spec fn view(&self) -> CellView {
        CellView { symbol: self.symbol@, fg: self.fg, bg: self.bg, modifier: self.modifier }
    }
}

/// Whether two strings hold the same characters.
pub fn same_text(a: &str, b: &str) -> (r: bool)
    ensures
        r == (a@ == b@),
{
    let n = a.unicode_len();
    if n != b.unicode_len() {
        return false;
    }
    let mut i: usize = 0;
    while i < n
        invariant
            n == a@.len(),
            n == b@.len(),
            i <= n,
            forall|j: int| 0 <= j < i ==> a@[j] == b@[j],
        decreases n - i,
    {
        if a.get_char(i) != b.get_char(i) {
            return false;
        }
        i += 1;
    }
    assert(a@ =~= b@);
    true
}

/// A new string with the characters of `s`.
pub fn copy_text(s: &str) -> (r: String)
    ensures
        r@ == s@,
{
    String::from_str(s)
}

impl Cell {
    /// What a blank cell holds: a space, default colors, no modifiers.
    pub open spec fn blank_view() -> CellView {
        CellView { symbol: seq![' '], fg: Color::Reset, bg: Color::Reset, modifier: 0 }
    }

    /// A blank cell: a space, default colors, no modifiers.
    pub fn blank() -> (r: Cell)
        ensures
            r@ == Cell::blank_view(),
    {
        proof {
            reveal_strlit(" ");
            assert(" "@ =~= seq![' ']);
        }
        Cell { symbol: String::from_str(" "), fg: Color::Reset, bg: Color::Reset, modifier: 0 }
    }

    /// A cell with the given content.
    pub fn new(symbol: &str, fg: Color, bg: Color, modifier: u16) -> (r: Cell)
        ensures
            r@ == (CellView { symbol: symbol@, fg, bg, modifier }),
    {
        Cell { symbol: copy_text(symbol), fg, bg, modifier }
    }

    /// An equal copy of this cell.
    pub fn copy(&self) -> (r: Cell)
        ensures
            r@ == self@,
    {
        Cell { symbol: copy_text(self.symbol.as_str()), fg: self.fg, bg: self.bg, modifier: self.modifier }
    }

    /// Whether two cells hold the same symbol, colors and modifiers.
    pub fn same(&self, other: &Cell) -> (r: bool)
        ensures
            r == (self@ == other@),
    {
        same_text(self.symbol.as_str(), other.symbol.as_str()) && self.fg == other.fg && self.bg
            == other.bg && self.modifier == other.modifier
    }
}

} // verus!
