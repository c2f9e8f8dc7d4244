use crate::columns::column_letter;
use crate::entities::{Coords, StoneColor};
use crate::text::decimal;
use vstd::prelude::*;

verus! {

/// The argument token of a colour.
pub open spec fn color_text(white: bool) -> Seq<char> {
    if white {
        seq!['w']
    } else {
        seq!['b']
    }
}

/// Relies on gtp's `EntityBuilder::color` and `Entity`'s `Display`: a colour
/// entity prints as `w` for white and `b` for black.
#[verifier::external_body]
fn gtp_color_token(white: bool) -> (r: String)
    ensures
        r@ == color_text(white),
{
    let mut eb = gtp::EntityBuilder::new();
    eb.color(white);
    eb.build().to_string()
}

/// The vertex token of a position: its column letter, then its row in
/// decimal; `pass` where a coordinate is zero.
pub open spec fn vertex_text(c: Coords) -> Seq<char> {
    if c.col == 0 || c.row == 0 {
        seq!['p', 'a', 's', 's']
    } else {
        seq![column_letter(c.col as nat)] + decimal(c.row as nat)
    }
}

/// Relies on `Entity::Vertex`'s `Display` in gtp: `pass` where a coordinate
/// is not positive, else the column letter (I skipped) and the row.
#[verifier::external_body]
fn gtp_vertex_token(col: i32, row: i32) -> (r: String)
    ensures
        col <= 0 || row <= 0 ==> r@ == seq!['p', 'a', 's', 's'],
        1 <= col <= 25 && row >= 1 ==> r@ == seq![column_letter(col as nat)] + decimal(
            row as nat,
        ),
{
    gtp::Entity::Vertex((col, row)).to_string()
}

/// Words joined by single spaces.
pub open spec fn join_words(w: Seq<Seq<char>>) -> Seq<char>
    decreases w.len(),
{
    if w.len() == 0 {
        Seq::empty()
    } else if w.len() == 1 {
        w[0]
    } else {
        join_words(w.drop_last()) + seq![' '] + w.last()
    }
}

pub open spec fn views(v: Seq<String>) -> Seq<Seq<char>> {
    v.map_values(|s: String| s@)
}

/// Relies on gtp's `Command::to_string` for a command with no arguments:
/// the name, then the line terminator.
#[verifier::external_body]
fn gtp_bare_command_line(name: &str) -> (r: String)
    ensures
        r@ == name@ + seq!['\n'],
{
    gtp::Command::new(name).to_string()
}

/// Relies on gtp's `Command::to_string` with a list of string entities as
/// arguments: the name, a space, the arguments joined by spaces, the line
/// terminator.
#[verifier::external_body]
fn gtp_command_line(name: &str, args: &Vec<String>) -> (r: String)
    ensures
        r@ == name@ + seq![' '] + join_words(views(args@)) + seq!['\n'],
{
    let mut c = gtp::Command::new(name);
    c.set_args(&gtp::Entity::List(args.iter().map(|a| gtp::Entity::String(a.clone())).collect()));
    c.to_string()
}

/// A command that the client sends to the engine.
#[derive(Debug, Clone, Copy, PartialEq, Eq, Structural)]
pub enum EngineRequest {
    Name,
    QueryBoardSize,
    ShowBoard,
    Play(StoneColor, Coords),
    ListStones(StoneColor),
    GenMove(StoneColor),
}

pub open spec fn is_white(c: StoneColor) -> bool {
    c == StoneColor::White
}

pub open spec fn command_name(req: EngineRequest) -> Seq<char> {
    match req {
        EngineRequest::Name => seq!['n', 'a', 'm', 'e'],
        EngineRequest::QueryBoardSize => seq![
            'q', 'u', 'e', 'r', 'y', '_', 'b', 'o', 'a', 'r', 'd', 's', 'i', 'z', 'e'
        ],
        EngineRequest::ShowBoard => seq!['s', 'h', 'o', 'w', 'b', 'o', 'a', 'r', 'd'],
        EngineRequest::Play(_, _) => seq!['p', 'l', 'a', 'y'],
        EngineRequest::ListStones(_) => seq![
            'l', 'i', 's', 't', '_', 's', 't', 'o', 'n', 'e', 's'
        ],
        EngineRequest::GenMove(_) => seq!['g', 'e', 'n', 'm', 'o', 'v', 'e'],
    }
}

/// The wire line of a request: the name and its argument tokens, joined by
/// spaces, then the line terminator.
pub open spec fn request_line(req: EngineRequest) -> Seq<char> {
    let args: Seq<Seq<char>> = match req {
        EngineRequest::Play(color, at) => seq![color_text(is_white(color)), vertex_text(at)],
        EngineRequest::ListStones(color) => seq![color_text(is_white(color))],
        EngineRequest::GenMove(color) => seq![color_text(is_white(color))],
        _ => Seq::empty(),
    };
    if args.len() == 0 {
        command_name(req) + seq!['\n']
    } else {
        command_name(req) + seq![' '] + join_words(args) + seq!['\n']
    }
}

/// A request that the codec can write: a vertex column has a letter.
pub open spec fn is_encodable(req: EngineRequest) -> bool {
    match req {
        EngineRequest::Play(_, at) => at.col <= 25,
        _ => true,
    }
}

fn color_token(color: StoneColor) -> (r: String)
    ensures
        r@ == color_text(is_white(color)),
{
    let white = match color {
        StoneColor::White => true,
        StoneColor::Black => false,
    };
    gtp_color_token(white)
}

fn vertex_token(at: Coords) -> (r: String)
    requires
        at.col <= 25,
    ensures
        r@ == vertex_text(at),
{
    gtp_vertex_token(at.col as i32, at.row as i32)
}

fn name_of(req: &EngineRequest) -> (r: &'static str)
    ensures
        r@ == command_name(*req),
{
    proof {
        reveal_strlit("name");
        reveal_strlit("query_boardsize");
        reveal_strlit("showboard");
        reveal_strlit("play");
        reveal_strlit("list_stones");
        reveal_strlit("genmove");
    }
    match req {
        EngineRequest::Name => "name",
        EngineRequest::QueryBoardSize => "query_boardsize",
        EngineRequest::ShowBoard => "showboard",
        EngineRequest::Play(_, _) => "play",
        EngineRequest::ListStones(_) => "list_stones",
        EngineRequest::GenMove(_) => "genmove",
    }
}

/// Encodes a request as the line written to the engine.
pub fn encode_request(req: &EngineRequest) -> (r: String)
    requires
        is_encodable(*req),
    ensures
        r@ == request_line(*req),
{
    let name = name_of(req);
    match req {
        EngineRequest::Play(color, at) => {
            let mut args: Vec<String> = Vec::new();
            args.push(color_token(*color));
            args.push(vertex_token(*at));
            let r = gtp_command_line(name, &args);
            assert(views(args@) =~= seq![color_text(is_white(*color)), vertex_text(*at)]);
            assert(join_words(views(args@)) == join_words(views(args@).drop_last()) + seq![' ']
                + views(args@).last());
            assert(views(args@).drop_last() =~= seq![color_text(is_white(*color))]);
            r
        },
        EngineRequest::ListStones(color) | EngineRequest::GenMove(color) => {
            let mut args: Vec<String> = Vec::new();
            args.push(color_token(*color));
            let r = gtp_command_line(name, &args);
            assert(views(args@) =~= seq![color_text(is_white(*color))]);
            r
        },
        _ => gtp_bare_command_line(name),
    }
}

} // verus!
