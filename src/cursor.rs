//! Cursor shapes and how each one marks the cell under the cursor.
use vstd::prelude::*;
use crate::cell::{MOD_REVERSED, MOD_UNDERLINED};

verus! {

/// Supported cursor shapes.
#[derive(Debug, Default, Clone, Copy, PartialEq, Eq, Structural)]
pub enum CursorShape {
    /// A non blinking block cursor shape.
    #[default]
    SteadyBlock,
    /// A non blinking underscore cursor shape.
    SteadyUnderScore,
    /// Only used to clear the cursor.
    NoShape,
}

/// A CSS property name and the value to give it (`None`: remove it).
#[derive(Debug, Clone, Copy)]
pub struct CssAttribute {
    pub field: &'static str,
    pub value: Option<&'static str>,
}

/// The modifier bit that a cursor shape toggles on the cell under it.
pub open spec fn cursor_bit(shape: CursorShape) -> u16 {
    match shape {
        CursorShape::SteadyBlock => MOD_REVERSED,
        CursorShape::SteadyUnderScore => MOD_UNDERLINED,
        CursorShape::NoShape => 0,
    }
}

impl CursorShape {
    /// The modifier bits of a cell once the cursor leaves it.
    pub fn conceal(&self, modifier: u16) -> (r: u16)
        ensures
            r == modifier & !cursor_bit(*self),
    {
        match self {
            CursorShape::SteadyBlock => modifier & !MOD_REVERSED,
            CursorShape::SteadyUnderScore => modifier & !MOD_UNDERLINED,
            CursorShape::NoShape => {
                assert(modifier & !0u16 == modifier) by (bit_vector);
                modifier
            },
        }
    }

    /// The modifier bits of a cell while the cursor is on it.
    pub fn show(&self, modifier: u16) -> (r: u16)
        ensures
            r == modifier | cursor_bit(*self),
    {
        match self {
            CursorShape::SteadyBlock => modifier | MOD_REVERSED,
            CursorShape::SteadyUnderScore => modifier | MOD_UNDERLINED,
            CursorShape::NoShape => {
                assert(modifier | 0u16 == modifier) by (bit_vector);
                modifier
            },
        }
    }

    /// The CSS property that shows this shape on a cell element.
    pub fn get_css_attribute(&self) -> (r: CssAttribute)
        ensures
            r.field@ == "text-decoration"@,
            match self {
                CursorShape::SteadyBlock => r.value.is_some() && r.value.unwrap()@ == "none"@,
                CursorShape::SteadyUnderScore => r.value.is_some() && r.value.unwrap()@
                    == "underline"@,
                CursorShape::NoShape => r.value.is_none(),
            },
    {
        match self {
            CursorShape::SteadyBlock => CssAttribute { field: "text-decoration", value: Some("none") },
            CursorShape::SteadyUnderScore => CssAttribute {
                field: "text-decoration",
                value: Some("underline"),
            },
            CursorShape::NoShape => CssAttribute { field: "text-decoration", value: None },
        }
    }
}

} // verus!
