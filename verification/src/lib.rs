use vstd::prelude::*;

pub mod boundaries;
pub mod decimal;
pub mod glyph;
pub mod plugin_ids;
pub mod render;
pub mod symbol;
pub mod theme;

verus! {

/// An absolute screen cell position, the key of the coordinate index.
#[derive(Clone, Copy, PartialEq, Eq, Structural, Hash, Debug)]
pub struct Coordinates {
    pub x: usize,
    pub y: usize,
}

impl Coordinates {
    pub fn new(x: usize, y: usize) -> (r: Self)
        ensures
            r.x == x,
            r.y == y,
    {
        Coordinates { x, y }
    }
}

} // verus!
