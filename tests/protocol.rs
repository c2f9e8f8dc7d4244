use goterm::engine::{
    decode_board_size, decode_gen_move, decode_stones, timeout_for, EngineResult,
    GenMoveResponse, PendingCommand, ReplyAction, ReplyMatch,
};
use goterm::entities::{Coords, Stone, StoneColor};
use goterm::errors::ErrorKind;
use goterm::protocol::{encode_request, EngineRequest};
use goterm::reply::{parse_vertex, parse_vertices, split_tokens, EngineReply, ResponseWrapper};

fn ok(cmd: &str, text: &str) -> ResponseWrapper {
    ResponseWrapper {
        cmd_name: cmd.to_string(),
        response: EngineReply { id: 1, success: true, text: text.to_string() },
    }
}

fn failed(cmd: &str, text: &str) -> ResponseWrapper {
    ResponseWrapper {
        cmd_name: cmd.to_string(),
        response: EngineReply { id: 1, success: false, text: text.to_string() },
    }
}

#[test]
fn encodes_each_command() {
    assert_eq!(encode_request(&EngineRequest::Name), "name\n");
    assert_eq!(encode_request(&EngineRequest::QueryBoardSize), "query_boardsize\n");
    assert_eq!(encode_request(&EngineRequest::ShowBoard), "showboard\n");
    assert_eq!(
        encode_request(&EngineRequest::Play(StoneColor::Black, Coords { row: 4, col: 16 })),
        "play b Q4\n"
    );
    assert_eq!(
        encode_request(&EngineRequest::Play(StoneColor::White, Coords { row: 19, col: 9 })),
        "play w J19\n"
    );
    assert_eq!(encode_request(&EngineRequest::ListStones(StoneColor::White)), "list_stones w\n");
    assert_eq!(encode_request(&EngineRequest::GenMove(StoneColor::Black)), "genmove b\n");
}

#[test]
fn vertex_round_trip() {
    let line = encode_request(&EngineRequest::Play(StoneColor::Black, Coords { row: 3, col: 5 }));
    let token = line.trim_end().rsplit(' ').next().unwrap();
    assert_eq!(token, "E3");
    assert_eq!(parse_vertex(token), Some(Coords { row: 3, col: 5 }));
    for col in 1u8..=19 {
        for row in 1u8..=19 {
            let line = encode_request(&EngineRequest::Play(StoneColor::White, Coords { row, col }));
            let token = line.trim_end().rsplit(' ').next().unwrap();
            assert_eq!(parse_vertex(token), Some(Coords { row, col }));
        }
    }
}

#[test]
fn splits_reply_words() {
    assert_eq!(split_tokens("A1 B2\nC3"), vec!["A1", "B2", "C3"]);
    assert_eq!(split_tokens("  D4  "), vec!["D4"]);
    assert!(split_tokens("").is_empty());
}

#[test]
fn parses_vertex_lists() {
    assert_eq!(
        parse_vertices("D4 Q16 t19"),
        Some(vec![
            Coords { row: 4, col: 4 },
            Coords { row: 16, col: 16 },
            Coords { row: 19, col: 19 }
        ])
    );
    assert_eq!(parse_vertices(""), Some(vec![]));
    assert_eq!(parse_vertices("D4 nonsense"), None);
    assert_eq!(parse_vertices("pass"), None);
}

#[test]
fn board_size_reply() {
    assert_eq!(decode_board_size(&ok("query_boardsize\n", "19")).ok(), Some(19));
    let e = decode_board_size(&ok("query_boardsize\n", "big")).err().unwrap();
    assert_eq!(e.kind, ErrorKind::Decode);
    assert_eq!(e.message, "invalid board size: big");
}

#[test]
fn rejected_reply_is_an_error() {
    let e = decode_board_size(&failed("play b Q4\n", "illegal move")).err().unwrap();
    assert_eq!(e.kind, ErrorKind::Rejected);
    assert_eq!(e.message, "cmd 'play b Q4\n' returned 'illegal move'");
}

#[test]
fn stones_reply_tags_colour() {
    let s = decode_stones(&ok("list_stones w\n", "C3 D4"), StoneColor::White).ok().unwrap();
    assert_eq!(
        s,
        vec![
            Stone { color: StoneColor::White, row: 3, col: 3 },
            Stone { color: StoneColor::White, row: 4, col: 4 }
        ]
    );
    let e = decode_stones(&ok("list_stones w\n", "C3 ??"), StoneColor::White).err().unwrap();
    assert_eq!(e.kind, ErrorKind::Decode);
    assert_eq!(e.message, "cmd 'list_stones w\n' returned 'C3 ??'");
}

#[test]
fn gen_move_reply_kinds() {
    assert_eq!(decode_gen_move(&ok("genmove w\n", "PASS")).ok(), Some(GenMoveResponse::Pass));
    assert_eq!(decode_gen_move(&ok("genmove w\n", "pass")).ok(), Some(GenMoveResponse::Pass));
    assert_eq!(decode_gen_move(&ok("genmove w\n", "Resign")).ok(), Some(GenMoveResponse::Resign));
    assert_eq!(
        decode_gen_move(&ok("genmove w\n", "K10")).ok(),
        Some(GenMoveResponse::Position(Coords { row: 10, col: 10 }))
    );
    let e = decode_gen_move(&ok("genmove w\n", "")).err().unwrap();
    assert_eq!(e.kind, ErrorKind::Decode);
    assert_eq!(e.message, "No entity found on response");
}

#[test]
fn timeouts_by_command_class() {
    assert_eq!(timeout_for(&EngineRequest::GenMove(StoneColor::White)), 2000);
    assert_eq!(timeout_for(&EngineRequest::ListStones(StoneColor::White)), 100);
    assert_eq!(timeout_for(&EngineRequest::Name), 100);
}

#[test]
fn pending_command_deadline_and_error() {
    let p = PendingCommand::issue(EngineRequest::ListStones(StoneColor::Black), 7, 1000);
    assert_eq!(p.line, "list_stones b\n");
    assert!(!p.is_expired(1099));
    assert!(p.is_expired(1100));
    let e = p.timeout_error(1104);
    assert_eq!(e.kind, ErrorKind::Timeout);
    assert_eq!(e.message, "Error calling command 'list_stones b\n', after 104ms");
}

#[test]
fn replies_are_matched_by_id() {
    let p = PendingCommand::issue(EngineRequest::Name, 5, 0);
    assert_eq!(p.classify_reply(5), ReplyMatch::Current);
    assert_eq!(p.classify_reply(0), ReplyMatch::Current);
    assert_eq!(p.classify_reply(4), ReplyMatch::Stale);
    assert_eq!(p.classify_reply(6), ReplyMatch::Unknown);
}

#[test]
fn pending_command_decodes_its_reply() {
    let p = PendingCommand::issue(EngineRequest::Play(StoneColor::Black, Coords { row: 4, col: 4 }), 1, 0);
    assert!(matches!(
        p.decode(EngineReply { id: 1, success: true, text: String::new() }),
        Ok(EngineResult::Played)
    ));
    let p = PendingCommand::issue(EngineRequest::Name, 2, 0);
    match p.decode(EngineReply { id: 2, success: true, text: "GNU Go".to_string() }) {
        Ok(EngineResult::Text(t)) => assert_eq!(t, "GNU Go"),
        _ => panic!("expected the engine's name"),
    }
}

#[test]
fn rejected_move_carries_the_reason() {
    let e = decode_gen_move(&failed("genmove w\n", "engine busy")).err().unwrap();
    assert_eq!(e.kind, ErrorKind::Rejected);
    assert_eq!(e.message, "cmd 'genmove w\n' returned 'engine busy'");
    let e = decode_gen_move(&ok("genmove w\n", "Z?")).err().unwrap();
    assert_eq!(e.kind, ErrorKind::Decode);
    assert_eq!(e.message, "cmd 'genmove w\n' returned 'Z?'");
    let p = PendingCommand::issue(EngineRequest::Play(StoneColor::Black, Coords { row: 4, col: 4 }), 3, 0);
    let e = p.decode(EngineReply { id: 3, success: false, text: "illegal move".to_string() }).err().unwrap();
    assert_eq!(e.kind, ErrorKind::Rejected);
    assert_eq!(e.message, "cmd 'play b D4\n' returned 'illegal move'");
}

#[test]
fn waiting_for_a_reply() {
    let p = PendingCommand::issue(EngineRequest::GenMove(StoneColor::White), 4, 1000);
    assert_eq!(p.time_left(1000), Some(2000));
    assert_eq!(p.time_left(2500), Some(500));
    assert_eq!(p.time_left(3000), None);
    let late = EngineReply { id: 3, success: true, text: "D4".to_string() };
    assert!(matches!(p.on_reply(late), ReplyAction::KeepWaiting));
    let own = EngineReply { id: 4, success: true, text: "resign".to_string() };
    assert!(matches!(
        p.on_reply(own),
        ReplyAction::Done(Ok(EngineResult::Generated(GenMoveResponse::Resign)))
    ));
    let stray = EngineReply { id: 9, success: true, text: "D4".to_string() };
    match p.on_reply(stray) {
        ReplyAction::Done(Err(e)) => {
            assert_eq!(e.kind, ErrorKind::Decode);
            assert_eq!(e.message, "reply 9 answers no command");
        }
        _ => panic!("expected an error"),
    }
}
