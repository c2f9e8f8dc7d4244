use crate::board::{
    build_layout, gen_star_points, layout_of, row_width, rows_view, star_points_of, BoardCell,
    CellView, StarPoint,
};
use crate::entities::{Coords, OptCoords, Stone};
use vstd::prelude::*;

verus! {

/// The board state as a value: what the store holds, and the layout it last
/// built.
pub struct StoreModel {
    pub board_size: u8,
    pub white: Seq<Stone>,
    pub black: Seq<Stone>,
    pub highlight: OptCoords,
    pub pending: Seq<char>,
    pub dirty: bool,
    pub layout: Seq<Seq<CellView>>,
}

/// The layout that the state calls for.
pub open spec fn expected_layout(m: StoreModel) -> Seq<Seq<CellView>> {
    layout_of(m.board_size, m.highlight, m.white, m.black)
}

/// The state after both stone lists are replaced.
pub open spec fn with_stones(m: StoreModel, black: Seq<Stone>, white: Seq<Stone>) -> StoreModel {
    StoreModel { white, black, dirty: true, ..m }
}

/// The state after the layout is asked for: rebuilt where something changed,
/// else the same.
pub open spec fn after_render(m: StoreModel) -> StoreModel {
    if m.dirty {
        StoreModel { dirty: false, layout: expected_layout(m), ..m }
    } else {
        m
    }
}

/// A board size with a column letter for every column.
pub open spec fn is_board_size(n: u8) -> bool {
    3 <= n <= 25
}

/// Holds the board state: stones, highlight and move input, and a render
/// layout that is rebuilt only after something changed.
pub struct BoardStore {
    board_size: u8,
    star_points: Vec<StarPoint>,
    white_stones: Vec<Stone>,
    black_stones: Vec<Stone>,
    highlight_coords: OptCoords,
    next_move_input: String,
    dirty: bool,
    rows: Vec<Vec<BoardCell>>,
}

impl View for BoardStore {
    type V = StoreModel;

    closed spec fn view(&self) -> StoreModel {
        StoreModel {
            board_size: self.board_size,
            white: self.white_stones@,
            black: self.black_stones@,
            highlight: self.highlight_coords,
            pending: self.next_move_input@,
            dirty: self.dirty,
            layout: rows_view(self.rows@),
        }
    }
}

impl BoardStore {
    /// The board size is fixed, the star points follow from it, and a clean
    /// layout is the one that the state calls for.
    pub closed spec fn wf(&self) -> bool {
        &&& is_board_size(self.board_size)
        &&& self.star_points@ == star_points_of(self.board_size)
        &&& !self.dirty ==> self@.layout == expected_layout(self@)
    }

    pub fn new(board_size: u8) -> (r: BoardStore)
        requires
            is_board_size(board_size),
        ensures
            r.wf(),
            r@.board_size == board_size,
            r@.white.len() == 0,
            r@.black.len() == 0,
            r@.highlight == (OptCoords { row: None, col: None }),
            r@.pending.len() == 0,
            !r@.dirty,
    {
        let star_points = gen_star_points(board_size);
        let white_stones: Vec<Stone> = Vec::new();
        let black_stones: Vec<Stone> = Vec::new();
        let highlight_coords = OptCoords { row: None, col: None };
        let rows = build_layout(board_size, highlight_coords, &white_stones, &black_stones, &star_points);
        BoardStore {
            board_size,
            star_points,
            white_stones,
            black_stones,
            highlight_coords,
            next_move_input: String::new(),
            dirty: false,
            rows,
        }
    }

    /// Replaces both stone lists with what the engine reported.
    pub fn set_stones(&mut self, black_stones: Vec<Stone>, white_stones: Vec<Stone>)
        requires
            old(self).wf(),
        ensures
            final(self).wf(),
            final(self)@ == with_stones(old(self)@, black_stones@, white_stones@),
    {
        self.black_stones = black_stones;
        self.white_stones = white_stones;
        self.dirty = true;
    }

    pub fn set_highlight(&mut self, coords: OptCoords)
        requires
            old(self).wf(),
        ensures
            final(self).wf(),
            final(self)@ == (StoreModel { highlight: coords, dirty: true, ..old(self)@ }),
    {
        self.highlight_coords = coords;
        self.dirty = true;
    }

    pub fn set_pending_input(&mut self, text: String)
        requires
            old(self).wf(),
        ensures
            final(self).wf(),
            final(self)@ == (StoreModel { pending: text@, dirty: true, ..old(self)@ }),
    {
        self.next_move_input = text;
        self.dirty = true;
    }

    /// The render layout, rebuilt first if the state changed since it was
    /// last built.
    pub fn get_render_layout(&mut self) -> (r: &Vec<Vec<BoardCell>>)
        requires
            old(self).wf(),
        ensures
            final(self).wf(),
            final(self)@ == after_render(old(self)@),
            rows_view(r@) == final(self)@.layout,
            rows_view(r@) == expected_layout(final(self)@),
    {
        if self.dirty {
            self.rows = build_layout(
                self.board_size,
                self.highlight_coords,
                &self.white_stones,
                &self.black_stones,
                &self.star_points,
            );
            self.dirty = false;
        }
        &self.rows
    }

    /// The highlighted position, when both its row and column are known.
    pub fn get_valid_highlight_coords(&self) -> (r: Option<Coords>)
        ensures
            r is Some <==> self@.highlight.is_complete(),
            r is Some ==> r->Some_0.row == self@.highlight.row->Some_0 && r->Some_0.col
                == self@.highlight.col->Some_0,
    {
        match (self.highlight_coords.row, self.highlight_coords.col) {
            (Some(row), Some(col)) => Some(Coords { row, col }),
            _ => None,
        }
    }

    /// The width of each column of the layout: three for the row numbers,
    /// one for every other cell.
    pub fn column_widths(&self) -> (r: Vec<u16>)
        requires
            self.wf(),
        ensures
            r@.len() == row_width(self@.board_size),
            forall|j: int|
                0 <= j < r@.len() ==> #[trigger] r@[j] == if j == 0 || j == r@.len() - 1 {
                    3u16
                } else {
                    1u16
                },
    {
        let n = self.board_size;
        let mut widths: Vec<u16> = Vec::new();
        widths.push(3);
        let mut column: u8 = 1;
        while column <= n
            invariant
                is_board_size(n),
                1 <= column <= n + 1,
                widths@.len() == 2 * column - 1,
                forall|j: int| 0 <= j < widths@.len() ==> #[trigger] widths@[j] == if j == 0 {
                    3u16
                } else {
                    1u16
                },
            decreases n + 1 - column,
        {
            widths.push(1);  // separator
            widths.push(1);  // intersection
            column = column + 1;
        }
        widths.push(1);  // spacing
        widths.push(3);  // row number
        widths
    }

    pub fn board_size(&self) -> (r: u8)
        ensures
            r == self@.board_size,
    {
        self.board_size
    }

    pub fn white_stones(&self) -> (r: &Vec<Stone>)
        ensures
            r@ == self@.white,
    {
        &self.white_stones
    }

    pub fn black_stones(&self) -> (r: &Vec<Stone>)
        ensures
            r@ == self@.black,
    {
        &self.black_stones
    }

    pub fn highlight_coords(&self) -> (r: OptCoords)
        ensures
            r == self@.highlight,
    {
        self.highlight_coords
    }

    pub fn next_move_input(&self) -> (r: &String)
        ensures
            r@ == self@.pending,
    {
        &self.next_move_input
    }

    pub fn is_dirty(&self) -> (r: bool)
        ensures
            r == self@.dirty,
    {
        self.dirty
    }
}

/// Replacing the stones marks the store dirty; the next layout is rebuilt and
/// shows the new stones; asking again with no change in between gives the
/// same layout and leaves the store as it was.
pub proof fn lemma_set_stones_then_render(m: StoreModel, black: Seq<Stone>, white: Seq<Stone>)
    ensures
        with_stones(m, black, white).dirty,
        after_render(with_stones(m, black, white)).layout == layout_of(
            m.board_size,
            m.highlight,
            white,
            black,
        ),
        !after_render(with_stones(m, black, white)).dirty,
        after_render(after_render(with_stones(m, black, white))) == after_render(
            with_stones(m, black, white),
        ),
{
}

} // verus!
