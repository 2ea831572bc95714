//! A pair of coordinates.

use vstd::prelude::*;

verus! {

/// Two values of one type: a column and a row, a width and a height, or a
/// cursor position.
#[derive(Clone, Copy, Debug)]
pub struct Pos<T> {
    pub x: T,
    pub y: T,
}

impl<T> Pos<T> {
    /// The pair `(x, y)`.
    pub fn new(x: T, y: T) -> (p: Self)
        ensures
            p.x == x,
            p.y == y,
    {
        Pos { x, y }
    }
}

} // verus!
