use vstd::prelude::*;

verus! {

/// The colour of a stone, also used as a protocol argument.
#[derive(Debug, Clone, Copy, PartialEq, Eq, Structural)]
pub enum StoneColor {
    White,
    Black,
}

impl StoneColor {
    pub open spec fn spec_inverse(self) -> StoneColor {
        match self {
            StoneColor::White => StoneColor::Black,
            StoneColor::Black => StoneColor::White,
        }
    }

    pub fn name(&self) -> (r: &'static str)
        ensures
            *self == StoneColor::White ==> r@ == "white"@,
            *self == StoneColor::Black ==> r@ == "black"@,
    {
        proof {
            reveal_strlit("white");
            reveal_strlit("black");
        }
        match self {
            StoneColor::White => "white",
            StoneColor::Black => "black",
        }
    }

    pub fn inverse(&self) -> (r: StoneColor)
        ensures
            r == self.spec_inverse(),
            r != *self,
    {
        match self {
            StoneColor::White => StoneColor::Black,
            StoneColor::Black => StoneColor::White,
        }
    }
}

/// A stone on the board, as reported by the engine.
#[derive(Debug, Clone, Copy, PartialEq, Eq, Structural)]
pub struct Stone {
    pub color: StoneColor,
    pub row: u8,
    pub col: u8,
}

/// A position that may be only partly known, while a move is being typed.
#[derive(Debug, Clone, Copy, PartialEq, Eq, Structural)]
pub struct OptCoords {
    pub row: Option<u8>,
    pub col: Option<u8>,
}

impl OptCoords {
    pub open spec fn is_complete(self) -> bool {
        self.row is Some && self.col is Some
    }
}

impl Default for OptCoords {
    fn default() -> (r: OptCoords)
        ensures
            r.row is None,
            r.col is None,
    {
        OptCoords { row: None, col: None }
    }
}

/// A fully known board position, one-based.
#[derive(Debug, Clone, Copy, PartialEq, Eq, Structural)]
pub struct Coords {
    pub row: u8,
    pub col: u8,
}

impl Coords {
    pub fn from(row: u8, col: u8) -> (r: Coords)
        ensures
            r.row == row,
            r.col == col,
    {
        Coords { row, col }
    }

    /// The position as a protocol vertex: column first, then row.
    pub fn vertex(&self) -> (r: (i32, i32))
        ensures
            r.0 == self.col as i32,
            r.1 == self.row as i32,
    {
        (self.col as i32, self.row as i32)
    }

    /// The position that a partial one names, when both parts are known.
    pub fn try_from(opt_coords: &OptCoords) -> (r: Result<Coords, ()>)
        ensures
            opt_coords.is_complete() <==> r is Ok,
            r is Ok ==> r->Ok_0.row == opt_coords.row->Some_0 && r->Ok_0.col
                == opt_coords.col->Some_0,
    {
        match (opt_coords.row, opt_coords.col) {
            (Some(row), Some(col)) => Ok(Coords::from(row, col)),
            _ => Err(()),
        }
    }
}

} // verus!
