//! The colored unit cell that pieces are made of and that the board stores.

use vstd::prelude::*;

verus! {

/// The seven colors a cell can carry, one per canonical piece shape.
#[derive(Copy, Clone, PartialEq, Eq, Structural, Debug)]
pub enum BlockColor {
    Cyan,
    Yellow,
    Purple,
    Green,
    Red,
    Blue,
    Orange,
}

/// An immutable colored unit cell, copied by value wherever it is placed.
#[derive(Copy, Clone, PartialEq, Eq, Structural, Debug)]
pub struct Block {
    pub color: BlockColor,
}

impl Block {
    pub fn new(color: BlockColor) -> (b: Block)
        ensures
            b.color == color,
    {
        Block { color }
    }
}

} // verus!
