use vstd::prelude::*;

use crate::text::str_eq;

verus! {

/// Horizontal placement of the working area on the screen. The constraints
/// are percentage cuts; the block index says which cut the area occupies.
#[derive(Debug)]
pub enum LayoutHorizontal {
    Full,
    Right,
    Center,
    Left,
}

impl LayoutHorizontal {
    /// The percentage widths of the three horizontal cuts for this placement.
    pub open spec fn constraint_percentages(&self) -> Seq<u16> {
        match self {
            LayoutHorizontal::Full => seq![100u16, 0u16, 0u16],
            LayoutHorizontal::Right => seq![60u16, 40u16, 0u16],
            LayoutHorizontal::Center => seq![30u16, 40u16, 0u16],
            LayoutHorizontal::Left => seq![40u16, 60u16, 0u16],
        }
    }

    /// Which of the three cuts the working area occupies.
    pub open spec fn block_index_of(&self) -> usize {
        match self {
            LayoutHorizontal::Full => 0usize,
            LayoutHorizontal::Right => 1usize,
            LayoutHorizontal::Center => 1usize,
            LayoutHorizontal::Left => 0usize,
        }
    }

    /// The placement a configuration string names; anything unrecognised
    /// falls back to `Center`.
    pub open spec fn of_str(s: Seq<char>) -> LayoutHorizontal {
        if s == "full"@ {
            LayoutHorizontal::Full
        } else if s == "right"@ {
            LayoutHorizontal::Right
        } else if s == "left"@ {
            LayoutHorizontal::Left
        } else {
            LayoutHorizontal::Center
        }
    }

    pub fn constraints(&self) -> (c: [u16; 3])
        ensures
            c@ == self.constraint_percentages(),
    {
        match self {
            LayoutHorizontal::Full => [100, 0, 0],
            LayoutHorizontal::Right => [60, 40, 0],
            LayoutHorizontal::Center => [30, 40, 0],
            LayoutHorizontal::Left => [40, 60, 0],
        }
    }

    pub fn block_index(&self) -> (i: usize)
        ensures
            i == self.block_index_of(),
    {
        match self {
            LayoutHorizontal::Full => 0,
            LayoutHorizontal::Right => 1,
            LayoutHorizontal::Center => 1,
            LayoutHorizontal::Left => 0,
        }
    }

    pub fn from_str(str: &str) -> (r: LayoutHorizontal)
        ensures
            r == LayoutHorizontal::of_str(str@),
    {
        if str_eq(str, "full") {
            LayoutHorizontal::Full
        } else if str_eq(str, "right") {
            LayoutHorizontal::Right
        } else if str_eq(str, "left") {
            LayoutHorizontal::Left
        } else {
            LayoutHorizontal::Center
        }
    }
}

/// Vertical placement of the working area on the screen.
#[derive(Debug)]
pub enum LayoutVertical {
    Full,
    Top,
    Center,
    Bottom,
}

impl LayoutVertical {
    /// The percentage heights of the three vertical cuts for this placement.
    pub open spec fn constraint_percentages(&self) -> Seq<u16> {
        match self {
            LayoutVertical::Full => seq![100u16, 0u16, 0u16],
            LayoutVertical::Top => seq![60u16, 40u16, 0u16],
            LayoutVertical::Center => seq![20u16, 60u16, 20u16],
            LayoutVertical::Bottom => seq![40u16, 60u16, 0u16],
        }
    }

    /// Which of the three cuts the working area occupies.
    pub open spec fn block_index_of(&self) -> usize {
        match self {
            LayoutVertical::Full => 0usize,
            LayoutVertical::Top => 0usize,
            LayoutVertical::Center => 1usize,
            LayoutVertical::Bottom => 1usize,
        }
    }

    /// The placement a configuration string names; anything unrecognised
    /// falls back to `Center`.
    pub open spec fn of_str(s: Seq<char>) -> LayoutVertical {
        if s == "full"@ {
            LayoutVertical::Full
        } else if s == "top"@ {
            LayoutVertical::Top
        } else if s == "bottom"@ {
            LayoutVertical::Bottom
        } else {
            LayoutVertical::Center
        }
    }

    pub fn constraints(&self) -> (c: [u16; 3])
        ensures
            c@ == self.constraint_percentages(),
    {
        match self {
            LayoutVertical::Full => [100, 0, 0],
            LayoutVertical::Top => [60, 40, 0],
            LayoutVertical::Center => [20, 60, 20],
            LayoutVertical::Bottom => [40, 60, 0],
        }
    }

    pub fn block_index(&self) -> (i: usize)
        ensures
            i == self.block_index_of(),
    {
        match self {
            LayoutVertical::Full => 0,
            LayoutVertical::Top => 0,
            LayoutVertical::Center => 1,
            LayoutVertical::Bottom => 1,
        }
    }

    pub fn from_str(str: &str) -> (r: LayoutVertical)
        ensures
            r == LayoutVertical::of_str(str@),
    {
        if str_eq(str, "full") {
            LayoutVertical::Full
        } else if str_eq(str, "top") {
            LayoutVertical::Top
        } else if str_eq(str, "bottom") {
            LayoutVertical::Bottom
        } else {
            LayoutVertical::Center
        }
    }
}

} // verus!
