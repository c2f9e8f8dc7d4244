use goterm::coordinator::{GoGame, GtpStatus, InputSymbol};
use goterm::engine::{EngineResult, GenMoveResponse};
use goterm::entities::{Coords, OptCoords, Stone, StoneColor};
use goterm::errors::{AppError, ErrorKind};
use goterm::protocol::EngineRequest;

fn type_keys(game: &mut GoGame, keys: &str) {
    for c in keys.chars() {
        assert_eq!(game.on_input(InputSymbol::Char(c)), None);
    }
}

fn stones(color: StoneColor, at: &[(u8, u8)]) -> Vec<Stone> {
    at.iter().map(|&(row, col)| Stone { color, row, col }).collect()
}

fn timeout() -> AppError {
    AppError::new(ErrorKind::Timeout, "Error calling command 'genmove w\n', after 2001ms".to_string())
}

#[test]
fn typing_a_move_highlights_it() {
    let mut game = GoGame::new(19, StoneColor::Black);
    type_keys(&mut game, "Q");
    assert_eq!(game.store().next_move_input(), "Q");
    type_keys(&mut game, "4");
    assert_eq!(game.store().next_move_input(), "Q4");
    assert_eq!(game.store().highlight_coords(), OptCoords { col: Some(16), row: Some(4) });
    let req = game.on_input(InputSymbol::Commit);
    assert_eq!(req, Some(EngineRequest::Play(StoneColor::Black, Coords { row: 4, col: 16 })));
    assert_eq!(game.status(), GtpStatus::Loading);
    assert_eq!(game.store().next_move_input(), "");
    assert_eq!(game.store().highlight_coords(), OptCoords { col: None, row: None });
}

#[test]
fn input_buffer_rules() {
    let mut game = GoGame::new(19, StoneColor::Black);
    type_keys(&mut game, "4");
    assert_eq!(game.store().next_move_input(), "");
    type_keys(&mut game, "I");
    assert_eq!(game.store().next_move_input(), "");
    type_keys(&mut game, "CD123");
    assert_eq!(game.store().next_move_input(), "C12");
    assert_eq!(game.on_input(InputSymbol::Backspace), None);
    assert_eq!(game.store().next_move_input(), "C1");
    assert_eq!(game.store().highlight_coords(), OptCoords { col: Some(3), row: Some(1) });
    game.on_input(InputSymbol::Backspace);
    game.on_input(InputSymbol::Backspace);
    game.on_input(InputSymbol::Backspace);
    assert_eq!(game.store().next_move_input(), "");
    // a column alone cannot be submitted
    type_keys(&mut game, "C");
    assert_eq!(game.on_input(InputSymbol::Commit), None);
    assert_eq!(game.status(), GtpStatus::Idle);
}

#[test]
fn full_round_trip() {
    let mut game = GoGame::new(19, StoneColor::Black);
    type_keys(&mut game, "D4");
    let mut req = game.on_input(InputSymbol::Commit);
    assert_eq!(req, Some(EngineRequest::Play(StoneColor::Black, Coords { row: 4, col: 4 })));
    req = game.on_engine_result(Ok(EngineResult::Played));
    assert_eq!(req, Some(EngineRequest::ListStones(StoneColor::Black)));
    req = game.on_engine_result(Ok(EngineResult::Stones(stones(StoneColor::Black, &[(4, 4)]))));
    assert_eq!(req, Some(EngineRequest::ListStones(StoneColor::White)));
    req = game.on_engine_result(Ok(EngineResult::Stones(vec![])));
    assert_eq!(req, Some(EngineRequest::GenMove(StoneColor::White)));
    assert_eq!(game.store().black_stones().len(), 1);
    req = game.on_engine_result(Ok(EngineResult::Generated(GenMoveResponse::Position(Coords {
        row: 16,
        col: 16,
    }))));
    assert_eq!(req, Some(EngineRequest::ListStones(StoneColor::Black)));
    req = game.on_engine_result(Ok(EngineResult::Stones(stones(StoneColor::Black, &[(4, 4)]))));
    assert_eq!(req, Some(EngineRequest::ListStones(StoneColor::White)));
    req = game.on_engine_result(Ok(EngineResult::Stones(stones(StoneColor::White, &[(16, 16)]))));
    assert_eq!(req, None);
    assert_eq!(game.status(), GtpStatus::Idle);
    assert_eq!(game.store().white_stones().len(), 1);
    assert_eq!(game.store().black_stones().len(), 1);
}

#[test]
fn timeout_keeps_last_stones() {
    let mut game = GoGame::new(9, StoneColor::Black);
    type_keys(&mut game, "C3");
    game.on_input(InputSymbol::Commit);
    game.on_engine_result(Ok(EngineResult::Played));
    game.on_engine_result(Ok(EngineResult::Stones(stones(StoneColor::Black, &[(3, 3)]))));
    game.on_engine_result(Ok(EngineResult::Stones(vec![])));
    let req = game.on_engine_result(Err(timeout()));
    assert_eq!(req, None);
    assert_eq!(game.status(), GtpStatus::Error);
    assert_eq!(
        game.error_message(),
        Some("Error calling command 'genmove w\n', after 2001ms".to_string())
    );
    assert_eq!(game.store().black_stones(), &stones(StoneColor::Black, &[(3, 3)]));
    assert!(game.store().white_stones().is_empty());
    // input is not applied in the error state; a key acknowledges the error
    assert_eq!(game.on_input(InputSymbol::Char('D')), None);
    assert_eq!(game.status(), GtpStatus::Idle);
    assert_eq!(game.error_message(), None);
    assert_eq!(game.store().next_move_input(), "");
}

#[test]
fn failed_listing_stops_before_gen_move() {
    let mut game = GoGame::new(9, StoneColor::White);
    type_keys(&mut game, "E5");
    game.on_input(InputSymbol::Commit);
    assert_eq!(
        game.on_engine_result(Ok(EngineResult::Played)),
        Some(EngineRequest::ListStones(StoneColor::Black))
    );
    let e = AppError::new(ErrorKind::Rejected, "cmd 'list_stones b\n' returned 'no'".to_string());
    assert_eq!(game.on_engine_result(Err(e)), None);
    assert_eq!(game.status(), GtpStatus::Error);
}

#[test]
fn loading_ignores_input_and_quit_always_works() {
    let mut game = GoGame::new(9, StoneColor::Black);
    type_keys(&mut game, "A1");
    game.on_input(InputSymbol::Commit);
    type_keys(&mut game, "B");
    assert_eq!(game.store().next_move_input(), "");
    assert!(!game.should_exit());
    assert_eq!(game.on_input(InputSymbol::Quit), None);
    assert!(game.should_exit());
}

#[test]
fn wrong_reply_shape_is_an_error() {
    let mut game = GoGame::new(9, StoneColor::Black);
    type_keys(&mut game, "A1");
    game.on_input(InputSymbol::Commit);
    assert_eq!(game.on_engine_result(Ok(EngineResult::BoardSize(9))), None);
    assert_eq!(game.status(), GtpStatus::Error);
}

#[test]
fn both_listings_reach_the_store() {
    let mut game = GoGame::new(9, StoneColor::Black);
    type_keys(&mut game, "B2");
    game.on_input(InputSymbol::Commit);
    game.on_engine_result(Ok(EngineResult::Played));
    game.on_engine_result(Ok(EngineResult::Stones(stones(StoneColor::Black, &[(2, 2)]))));
    game.on_engine_result(Ok(EngineResult::Stones(stones(StoneColor::White, &[(5, 5)]))));
    assert_eq!(game.store().black_stones(), &stones(StoneColor::Black, &[(2, 2)]));
    assert_eq!(game.store().white_stones(), &stones(StoneColor::White, &[(5, 5)]));
    game.on_engine_result(Ok(EngineResult::Generated(GenMoveResponse::Pass)));
    game.on_engine_result(Ok(EngineResult::Stones(stones(StoneColor::Black, &[(2, 2), (3, 3)]))));
    game.on_engine_result(Ok(EngineResult::Stones(stones(StoneColor::White, &[(5, 5)]))));
    assert_eq!(game.store().black_stones(), &stones(StoneColor::Black, &[(2, 2), (3, 3)]));
    assert_eq!(game.status(), GtpStatus::Idle);
}
