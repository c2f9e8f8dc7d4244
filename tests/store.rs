use goterm::board::{gen_star_points, CellKind, StarPoint};
use goterm::entities::{OptCoords, Stone, StoneColor};
use goterm::store::BoardStore;

fn stone(color: StoneColor, row: u8, col: u8) -> Stone {
    Stone { color, row, col }
}

#[test]
fn star_points_by_board_size() {
    for n in 3u8..=25 {
        let points = gen_star_points(n);
        assert_eq!(points.len(), if n >= 19 { 9 } else { 5 });
        for p in &points {
            assert!(1 <= p.row && p.row <= n && 1 <= p.col && p.col <= n);
        }
    }
    assert_eq!(
        gen_star_points(19),
        vec![
            StarPoint { row: 4, col: 4 },
            StarPoint { row: 4, col: 16 },
            StarPoint { row: 16, col: 4 },
            StarPoint { row: 16, col: 16 },
            StarPoint { row: 10, col: 10 },
            StarPoint { row: 4, col: 10 },
            StarPoint { row: 16, col: 10 },
            StarPoint { row: 10, col: 4 },
            StarPoint { row: 10, col: 16 },
        ]
    );
    assert_eq!(gen_star_points(9)[0], StarPoint { row: 3, col: 3 });
    assert_eq!(gen_star_points(9)[4], StarPoint { row: 5, col: 5 });
    assert_eq!(gen_star_points(13)[4], StarPoint { row: 7, col: 7 });
    assert_eq!(gen_star_points(13)[3], StarPoint { row: 10, col: 10 });
}

#[test]
fn new_store_has_a_clean_layout() {
    let mut store = BoardStore::new(9);
    assert!(!store.is_dirty());
    let layout = store.get_render_layout();
    assert_eq!(layout.len(), 11);
    for row in layout {
        assert_eq!(row.len(), 21);
    }
    let header: String = layout[0].iter().map(|c| c.text.clone()).collect();
    assert_eq!(header, "ABCDEFGHJ");
    assert_eq!(layout[1][0].text, "  9");
    assert_eq!(layout[1][20].text, "9  ");
    assert_eq!(layout[9][0].text, "  1");
    assert_eq!(layout[9][1].kind, CellKind::Blank);
    assert_eq!(layout[9][3].kind, CellKind::Line);
}

#[test]
fn set_stones_marks_dirty_and_layout_follows() {
    let mut store = BoardStore::new(19);
    store.set_stones(
        vec![stone(StoneColor::Black, 12, 8)],
        vec![stone(StoneColor::White, 2, 3)],
    );
    assert!(store.is_dirty());
    let first = store.get_render_layout().clone();
    assert!(!store.is_dirty());
    // line 12 is row 19 - 12 + 1 = 8, column 8 is cell 16
    assert_eq!(first[8][16].kind, CellKind::BlackStone);
    assert_eq!(first[18][6].kind, CellKind::WhiteStone);
    // line 4 is row 16: star points at columns 4, 10 and 16
    assert_eq!(first[16][8].kind, CellKind::StarPoint);
    assert_eq!(first[16][20].kind, CellKind::StarPoint);
    assert_eq!(first[16][10].kind, CellKind::Intersection);
    // the centre, line 10, is row 10
    assert_eq!(first[10][20].kind, CellKind::StarPoint);
    let second = store.get_render_layout().clone();
    assert!(!store.is_dirty());
    let kinds = |l: &Vec<Vec<goterm::board::BoardCell>>| -> Vec<Vec<(CellKind, String, bool)>> {
        l.iter()
            .map(|r| r.iter().map(|c| (c.kind, c.text.clone(), c.highlighted)).collect())
            .collect()
    };
    assert_eq!(kinds(&first), kinds(&second));
}

#[test]
fn highlight_marks_row_and_column() {
    let mut store = BoardStore::new(9);
    store.set_highlight(OptCoords { row: Some(2), col: Some(3) });
    assert!(store.is_dirty());
    let layout = store.get_render_layout();
    // the header letter of column 3
    assert!(layout[0][6].highlighted);
    assert!(!layout[0][4].highlighted);
    // line 2 is row 8: all of it is highlighted
    assert!(layout[8].iter().all(|c| c.highlighted));
    // column 3 on line 5
    assert!(layout[5][6].highlighted);
    assert!(!layout[5][8].highlighted);
}

#[test]
fn white_stones_are_shown_first() {
    let mut store = BoardStore::new(9);
    store.set_stones(
        vec![stone(StoneColor::Black, 1, 1)],
        vec![stone(StoneColor::White, 1, 1)],
    );
    let layout = store.get_render_layout();
    assert_eq!(layout[9][2].kind, CellKind::WhiteStone);
    assert_eq!(store.white_stones().len(), 1);
    assert_eq!(store.black_stones().len(), 1);
}

#[test]
fn pending_input_is_kept() {
    let mut store = BoardStore::new(13);
    store.set_pending_input("D1".to_string());
    assert_eq!(store.next_move_input(), "D1");
    assert!(store.is_dirty());
    assert_eq!(store.board_size(), 13);
}

#[test]
fn column_widths_and_valid_highlight() {
    let mut store = BoardStore::new(9);
    let widths = store.column_widths();
    assert_eq!(widths.len(), 21);
    assert_eq!(widths[0], 3);
    assert_eq!(widths[20], 3);
    assert!(widths[1..20].iter().all(|w| *w == 1));
    assert_eq!(store.get_valid_highlight_coords(), None);
    store.set_highlight(OptCoords { row: None, col: Some(4) });
    assert_eq!(store.get_valid_highlight_coords(), None);
    store.set_highlight(OptCoords { row: Some(7), col: Some(4) });
    assert_eq!(
        store.get_valid_highlight_coords(),
        Some(goterm::entities::Coords { row: 7, col: 4 })
    );
}

#[test]
fn redraw_clock_default() {
    assert_eq!(goterm::events::Config::default().tick_rate_ms, 250);
}
