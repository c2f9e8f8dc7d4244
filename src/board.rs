use crate::columns::{column_letter, get_column_name};
use crate::entities::{OptCoords, Stone, StoneColor};
use crate::text::{decimal, decimal_text, pad_left, pad_right, pad_to_right, padded_left, push_char};
use vstd::prelude::*;

verus! {

/// A conventional marker intersection on the board.
#[derive(Debug, Clone, Copy, PartialEq, Eq, Structural)]
pub struct StarPoint {
    pub row: u8,
    pub col: u8,
}

impl StarPoint {
    pub fn from(row: u8, col: u8) -> (r: StarPoint)
        ensures
            r == (StarPoint { row, col }),
    {
        StarPoint { row, col }
    }
}

pub open spec fn star_margin(n: u8) -> u8 {
    if n >= 13 {
        4
    } else {
        3
    }
}

/// The star points of a board of size `n`: four corners and the centre, and
/// the four edge midpoints from size 19 on.
pub open spec fn star_points_of(n: u8) -> Seq<StarPoint> {
    let m = star_margin(n);
    let mid = ((n + 1) / 2) as u8;
    let far = (n - m + 1) as u8;
    let base = seq![
        StarPoint { row: m, col: m },
        StarPoint { row: m, col: far },
        StarPoint { row: far, col: m },
        StarPoint { row: far, col: far },
        StarPoint { row: mid, col: mid },
    ];
    if n >= 19 {
        base + seq![
            StarPoint { row: m, col: mid },
            StarPoint { row: far, col: mid },
            StarPoint { row: mid, col: m },
            StarPoint { row: mid, col: far },
        ]
    } else {
        base
    }
}

pub fn gen_star_points(board_size: u8) -> (r: Vec<StarPoint>)
    requires
        board_size >= 3,
    ensures
        r@ == star_points_of(board_size),
        board_size < 19 ==> r@.len() == 5,
        board_size >= 19 ==> r@.len() == 9,
        forall|i: int|
            0 <= i < r@.len() ==> 1 <= (#[trigger] r@[i]).row <= board_size && 1 <= r@[i].col
                <= board_size,
        r@.contains(StarPoint { row: ((board_size + 1) / 2) as u8, col: ((board_size + 1) / 2) as u8 }),
{
    let margin: u8 = if board_size >= 13 { 4 } else { 3 };
    // the centre line; for an even size the one just past the middle
    let middle = board_size / 2 + board_size % 2;
    let far = board_size - margin + 1;
    let mut points: Vec<StarPoint> = Vec::new();
    points.push(StarPoint::from(margin, margin));  // top left
    points.push(StarPoint::from(margin, far));  // top right
    points.push(StarPoint::from(far, margin));  // bottom left
    points.push(StarPoint::from(far, far));  // bottom right
    points.push(StarPoint::from(middle, middle));  // centre
    if board_size >= 19 {
        points.push(StarPoint::from(margin, middle));  // top edge
        points.push(StarPoint::from(far, middle));  // bottom edge
        points.push(StarPoint::from(middle, margin));  // left edge
        points.push(StarPoint::from(middle, far));  // right edge
    }
    assert(points@ =~= star_points_of(board_size));
    assert(points@[4] == StarPoint { row: middle, col: middle });
    points
}

/// What a cell of the render layout shows.
#[derive(Debug, Clone, Copy, PartialEq, Eq, Structural)]
pub enum CellKind {
    Blank,
    ColumnLabel,
    RowLabel,
    Line,
    Intersection,
    StarPoint,
    WhiteStone,
    BlackStone,
}

/// A cell of the render layout: its kind, its label text (empty for board
/// marks, which the renderer draws by kind), and whether it is highlighted.
#[derive(Debug, Clone)]
pub struct BoardCell {
    pub kind: CellKind,
    pub text: String,
    pub highlighted: bool,
}

pub struct CellView {
    pub kind: CellKind,
    pub text: Seq<char>,
    pub highlighted: bool,
}

impl View for BoardCell {
    type V = CellView;

    open spec fn view(&self) -> CellView {
        CellView { kind: self.kind, text: self.text@, highlighted: self.highlighted }
    }
}

pub open spec fn blank(highlighted: bool) -> CellView {
    CellView { kind: CellKind::Blank, text: Seq::empty(), highlighted }
}

/// The number of cells in each row of a board of size `n`.
pub open spec fn row_width(n: u8) -> nat {
    (2 * n + 3) as nat
}

/// Cell `j` of the header and footer rows: a blank, then a blank and a
/// column letter per column, then two blanks.
pub open spec fn header_cell(n: u8, hl: OptCoords, j: int) -> CellView {
    if 1 <= j <= 2 * n && j % 2 == 0 {
        CellView {
            kind: CellKind::ColumnLabel,
            text: seq![column_letter((j / 2) as nat)],
            highlighted: hl.col == Some((j / 2) as u8),
        }
    } else {
        blank(false)
    }
}

/// The first stone in `s` at row `r`, column `c`.
pub open spec fn first_at(s: Seq<Stone>, r: u8, c: u8) -> Option<Stone>
    decreases s.len(),
{
    if s.len() == 0 {
        None
    } else if s[0].row == r && s[0].col == c {
        Some(s[0])
    } else {
        first_at(s.drop_first(), r, c)
    }
}

/// The stone shown at a position: white stones are looked at first.
pub open spec fn stone_at(white: Seq<Stone>, black: Seq<Stone>, r: u8, c: u8) -> Option<Stone> {
    match first_at(white, r, c) {
        Some(s) => Some(s),
        None => first_at(black, r, c),
    }
}

pub open spec fn is_star(stars: Seq<StarPoint>, r: u8, c: u8) -> bool {
    exists|k: int| 0 <= k < stars.len() && (#[trigger] stars[k]).row == r && stars[k].col == c
}

pub open spec fn point_kind(
    white: Seq<Stone>,
    black: Seq<Stone>,
    stars: Seq<StarPoint>,
    r: u8,
    c: u8,
) -> CellKind {
    match stone_at(white, black, r, c) {
        Some(s) => if s.color == StoneColor::White {
            CellKind::WhiteStone
        } else {
            CellKind::BlackStone
        },
        None => if is_star(stars, r, c) {
            CellKind::StarPoint
        } else {
            CellKind::Intersection
        },
    }
}

/// Cell `j` of the row of board line `r`: the row number on the left, then a
/// separator and an intersection per column, a blank, the row number on the
/// right. Everything on a highlighted line is highlighted, and so is the
/// intersection of a highlighted column.
pub open spec fn line_cell(
    n: u8,
    r: u8,
    hl: OptCoords,
    white: Seq<Stone>,
    black: Seq<Stone>,
    stars: Seq<StarPoint>,
    j: int,
) -> CellView {
    let row_hl = hl.row == Some(r);
    if j == 0 {
        CellView { kind: CellKind::RowLabel, text: pad_left(decimal(r as nat), 3), highlighted: row_hl }
    } else if j == 2 * n + 2 {
        CellView { kind: CellKind::RowLabel, text: pad_right(decimal(r as nat), 3), highlighted: row_hl }
    } else if j == 1 || j == 2 * n + 1 {
        blank(row_hl)
    } else if j % 2 == 1 {
        CellView { kind: CellKind::Line, text: Seq::empty(), highlighted: row_hl }
    } else {
        let c = (j / 2) as u8;
        CellView {
            kind: point_kind(white, black, stars, r, c),
            text: Seq::empty(),
            highlighted: row_hl || hl.col == Some(c),
        }
    }
}

/// The render layout of a board: header, lines from `n` down to 1, footer.
pub open spec fn layout_of(
    n: u8,
    hl: OptCoords,
    white: Seq<Stone>,
    black: Seq<Stone>,
) -> Seq<Seq<CellView>> {
    Seq::new(
        (n + 2) as nat,
        |i: int|
            Seq::new(
                row_width(n),
                |j: int|
                    if i == 0 || i == n + 1 {
                        header_cell(n, hl, j)
                    } else {
                        line_cell(n, (n + 1 - i) as u8, hl, white, black, star_points_of(n), j)
                    },
            ),
    )
}

pub open spec fn cells_view(cells: Seq<BoardCell>) -> Seq<CellView> {
    cells.map_values(|c: BoardCell| c@)
}

pub open spec fn rows_view(rows: Seq<Vec<BoardCell>>) -> Seq<Seq<CellView>> {
    rows.map_values(|r: Vec<BoardCell>| cells_view(r@))
}

fn blank_cell(highlighted: bool) -> (r: BoardCell)
    ensures
        r@ == blank(highlighted),
{
    let r = BoardCell { kind: CellKind::Blank, text: String::new(), highlighted };
    assert(r@.text =~= Seq::<char>::empty());
    r
}

fn make_header_row(n: u8, hl: OptCoords) -> (r: Vec<BoardCell>)
    requires
        3 <= n <= 25,
    ensures
        cells_view(r@) == Seq::new(row_width(n), |j: int| header_cell(n, hl, j)),
{
    let mut cells: Vec<BoardCell> = Vec::new();
    cells.push(blank_cell(false));
    let mut column: u8 = 1;
    while column <= n
        invariant
            3 <= n <= 25,
            1 <= column <= n + 1,
            cells@.len() == 2 * column - 1,
            forall|j: int| 0 <= j < cells@.len() ==> (#[trigger] cells@[j])@ == header_cell(n, hl, j),
        decreases n + 1 - column,
    {
        cells.push(blank_cell(false));
        let mut text = String::new();
        push_char(&mut text, get_column_name(column));
        let highlighted = match hl.col {
            Some(c) => c == column,
            None => false,
        };
        cells.push(BoardCell { kind: CellKind::ColumnLabel, text, highlighted });
        assert(cells@.last()@.text =~= seq![column_letter(column as nat)]);
        column = column + 1;
    }
    cells.push(blank_cell(false));
    cells.push(blank_cell(false));
    assert(cells_view(cells@) =~= Seq::new(row_width(n), |j: int| header_cell(n, hl, j)));
    cells
}

/// The first stone in `s` at the given position.
fn find_stone(s: &Vec<Stone>, r: u8, c: u8) -> (res: Option<Stone>)
    ensures
        res == first_at(s@, r, c),
{
    let mut i: usize = 0;
    assert(s@.subrange(0, s@.len() as int) =~= s@);
    while i < s.len()
        invariant
            i <= s@.len(),
            first_at(s@, r, c) == first_at(s@.subrange(i as int, s@.len() as int), r, c),
        decreases s.len() - i,
    {
        let ghost rest = s@.subrange(i as int, s@.len() as int);
        assert(rest.drop_first() =~= s@.subrange(i + 1, s@.len() as int));
        assert(rest[0] == s@[i as int]);
        if s[i].row == r && s[i].col == c {
            return Some(s[i]);
        }
        i = i + 1;
    }
    assert(s@.subrange(i as int, s@.len() as int) =~= Seq::<Stone>::empty());
    None
}

fn find_star(stars: &Vec<StarPoint>, r: u8, c: u8) -> (res: bool)
    ensures
        res == is_star(stars@, r, c),
{
    let mut i: usize = 0;
    while i < stars.len()
        invariant
            i <= stars@.len(),
            forall|k: int| 0 <= k < i ==> !((#[trigger] stars@[k]).row == r && stars@[k].col == c),
        decreases stars.len() - i,
    {
        if stars[i].row == r && stars[i].col == c {
            return true;
        }
        i = i + 1;
    }
    false
}

fn make_line_row(
    n: u8,
    line: u8,
    hl: OptCoords,
    white: &Vec<Stone>,
    black: &Vec<Stone>,
    stars: &Vec<StarPoint>,
) -> (r: Vec<BoardCell>)
    requires
        3 <= n <= 25,
        1 <= line <= n,
    ensures
        cells_view(r@) == Seq::new(
            row_width(n),
            |j: int| line_cell(n, line, hl, white@, black@, stars@, j),
        ),
{
    let row_hl = match hl.row {
        Some(x) => x == line,
        None => false,
    };
    let mut cells: Vec<BoardCell> = Vec::new();
    let number = decimal_text(line as u64);
    cells.push(BoardCell { kind: CellKind::RowLabel, text: padded_left(number.as_str(), 3), highlighted: row_hl });
    let mut column: u8 = 1;
    while column <= n
        invariant
            3 <= n <= 25,
            1 <= line <= n,
            1 <= column <= n + 1,
            row_hl == (hl.row == Some(line)),
            number@ == decimal(line as nat),
            cells@.len() == 2 * column - 1,
            forall|j: int|
                0 <= j < cells@.len() ==> (#[trigger] cells@[j])@ == line_cell(
                    n,
                    line,
                    hl,
                    white@,
                    black@,
                    stars@,
                    j,
                ),
        decreases n + 1 - column,
    {
        if column > 1 {
            let sep = BoardCell { kind: CellKind::Line, text: String::new(), highlighted: row_hl };
            assert(sep@.text =~= Seq::<char>::empty());
            cells.push(sep);
        } else {
            cells.push(blank_cell(row_hl));
        }
        let kind = match find_stone(white, line, column) {
            Some(s) => match s.color {
                StoneColor::White => CellKind::WhiteStone,
                StoneColor::Black => CellKind::BlackStone,
            },
            None => match find_stone(black, line, column) {
                Some(s) => match s.color {
                    StoneColor::White => CellKind::WhiteStone,
                    StoneColor::Black => CellKind::BlackStone,
                },
                None => if find_star(stars, line, column) {
                    CellKind::StarPoint
                } else {
                    CellKind::Intersection
                },
            },
        };
        let col_hl = match hl.col {
            Some(x) => x == column,
            None => false,
        };
        let point = BoardCell { kind, text: String::new(), highlighted: row_hl || col_hl };
        assert(point@.text =~= Seq::<char>::empty());
        cells.push(point);
        column = column + 1;
    }
    cells.push(blank_cell(row_hl));
    let mut right = number.clone();
    pad_to_right(&mut right, 3);
    cells.push(BoardCell { kind: CellKind::RowLabel, text: right, highlighted: row_hl });
    assert(cells_view(cells@) =~= Seq::new(
        row_width(n),
        |j: int| line_cell(n, line, hl, white@, black@, stars@, j),
    ));
    cells
}

/// Builds the whole render layout.
pub(crate) fn build_layout(
    n: u8,
    hl: OptCoords,
    white: &Vec<Stone>,
    black: &Vec<Stone>,
    stars: &Vec<StarPoint>,
) -> (r: Vec<Vec<BoardCell>>)
    requires
        3 <= n <= 25,
        stars@ == star_points_of(n),
    ensures
        rows_view(r@) == layout_of(n, hl, white@, black@),
{
    let ghost want = layout_of(n, hl, white@, black@);
    let mut rows: Vec<Vec<BoardCell>> = Vec::new();
    rows.push(make_header_row(n, hl));
    let mut line: u8 = n;
    while line >= 1
        invariant
            3 <= n <= 25,
            line <= n,
            stars@ == star_points_of(n),
            want == layout_of(n, hl, white@, black@),
            rows@.len() == n + 1 - line,
            forall|i: int| 0 <= i < rows@.len() ==> cells_view((#[trigger] rows@[i])@) == want[i],
        decreases line,
    {
        let row = make_line_row(n, line, hl, white, black, stars);
        let ghost i = rows@.len() as int;
        assert(cells_view(row@) =~= want[i]);
        rows.push(row);
        line = line - 1;
    }
    let footer = make_header_row(n, hl);
    assert(cells_view(footer@) =~= want[n + 1]);
    rows.push(footer);
    assert(rows_view(rows@) =~= want);
    rows
}

} // verus!
