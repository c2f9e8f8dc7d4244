use crate::entities::{Coords, Stone, StoneColor};
use crate::errors::{AppError, ErrorKind};
use crate::protocol::{encode_request, is_encodable, request_line, vertex_text, EngineRequest};
use crate::reply::{
    lemma_decimal_small, lemma_vertex_round_trip, no_entity_message, returned_message, vertices_of,
    EngineReply, ResponseWrapper,
};
use crate::text::{decimal, parsed_u8, push_decimal};
use crate::columns::parse_u8_from;
use vstd::prelude::*;

verus! {

/// Sent to a listener when the engine has confirmed a change of the stones.
pub struct OnStonesChangeMessage {}

/// What the engine chose to do when asked for a move.
#[derive(Debug, Clone, Copy, PartialEq, Eq, Structural)]
pub enum GenMoveResponse {
    Position(Coords),
    Resign,
    Pass,
}

/// A decoded successful reply.
#[derive(Debug)]
pub enum EngineResult {
    Text(String),
    BoardSize(u8),
    Played,
    Stones(Vec<Stone>),
    Generated(GenMoveResponse),
}

/// A decoded reply, as a value.
pub enum ResultModel {
    Text(Seq<char>),
    BoardSize(u8),
    Played,
    Stones(Seq<Stone>),
    Generated(GenMoveResponse),
}

impl View for EngineResult {
    type V = ResultModel;

    open spec fn view(&self) -> ResultModel {
        match self {
            EngineResult::Text(t) => ResultModel::Text(t@),
            EngineResult::BoardSize(n) => ResultModel::BoardSize(*n),
            EngineResult::Played => ResultModel::Played,
            EngineResult::Stones(s) => ResultModel::Stones(s@),
            EngineResult::Generated(g) => ResultModel::Generated(*g),
        }
    }
}

/// The stones of one colour at the given positions.
pub open spec fn stones_at(color: StoneColor, at: Seq<Coords>) -> Seq<Stone> {
    Seq::new(at.len(), |i: int| Stone { color, row: at[i].row, col: at[i].col })
}

pub open spec fn ascii_lower(c: char) -> char {
    if 'A' <= c && c <= 'Z' {
        (((c as u32) + 32) as u8) as char
    } else {
        c
    }
}

/// Whether `t` is the lower-case word `w`, in any case.
pub open spec fn same_word(t: Seq<char>, w: Seq<char>) -> bool {
    t.len() == w.len() && forall|i: int| 0 <= i < t.len() ==> ascii_lower(#[trigger] t[i]) == w[i]
}

pub open spec fn pass_word() -> Seq<char> {
    seq!['p', 'a', 's', 's']
}

pub open spec fn resign_word() -> Seq<char> {
    seq!['r', 'e', 's', 'i', 'g', 'n']
}

/// What a move reply means: the reserved words first, else its last position.
pub open spec fn gen_move_of(text: Seq<char>) -> Option<GenMoveResponse> {
    if same_word(text, pass_word()) {
        Some(GenMoveResponse::Pass)
    } else if same_word(text, resign_word()) {
        Some(GenMoveResponse::Resign)
    } else {
        match vertices_of(text) {
            Some(v) => if v.len() > 0 {
                Some(GenMoveResponse::Position(v.last()))
            } else {
                None
            },
            None => None,
        }
    }
}

/// What a successful reply to `req` with text `text` decodes to.
pub open spec fn decoded(req: EngineRequest, text: Seq<char>) -> Option<ResultModel> {
    match req {
        EngineRequest::Name | EngineRequest::ShowBoard => Some(ResultModel::Text(text)),
        EngineRequest::QueryBoardSize => match parsed_u8(text) {
            Some(n) => Some(ResultModel::BoardSize(n)),
            None => None,
        },
        EngineRequest::Play(_, _) => Some(ResultModel::Played),
        EngineRequest::ListStones(color) => match vertices_of(text) {
            Some(v) => Some(ResultModel::Stones(stones_at(color, v))),
            None => None,
        },
        EngineRequest::GenMove(_) => match gen_move_of(text) {
            Some(g) => Some(ResultModel::Generated(g)),
            None => None,
        },
    }
}

pub open spec fn board_size_message(text: Seq<char>) -> Seq<char> {
    "invalid board size: "@ + text
}

/// The message of a successful reply to `req` that does not decode.
pub open spec fn decode_error_message(req: EngineRequest, cmd: Seq<char>, text: Seq<char>) -> Seq<
    char,
> {
    match req {
        EngineRequest::QueryBoardSize => board_size_message(text),
        EngineRequest::GenMove(_) => if vertices_of(text) is Some {
            no_entity_message()
        } else {
            returned_message(cmd, text)
        },
        _ => returned_message(cmd, text),
    }
}

/// `r` is what a reply to `req`, sent as line `cmd`, decodes to: the decoded
/// value on success, else an error that carries the engine's text.
pub open spec fn decodes_to(
    req: EngineRequest,
    cmd: Seq<char>,
    success: bool,
    text: Seq<char>,
    r: Result<EngineResult, AppError>,
) -> bool {
    &&& r is Ok <==> success && decoded(req, text) is Some
    &&& r is Ok ==> r->Ok_0@ == decoded(req, text)->Some_0
    &&& !success ==> r->Err_0.kind == ErrorKind::Rejected && r->Err_0.message@ == returned_message(
        cmd,
        text,
    )
    &&& success && r is Err ==> r->Err_0.kind == ErrorKind::Decode && r->Err_0.message@
        == decode_error_message(req, cmd, text)
}

/// Whether `t` is `w` in any case, for a lower-case word `w`.
fn is_word(t: &str, w: &str) -> (r: bool)
    ensures
        r == same_word(t@, w@),
{
    let n = t.unicode_len();
    if n != w.unicode_len() {
        return false;
    }
    let mut i: usize = 0;
    while i < n
        invariant
            i <= n,
            n == t@.len(),
            n == w@.len(),
            forall|j: int| 0 <= j < i ==> ascii_lower(#[trigger] t@[j]) == w@[j],
        decreases n - i,
    {
        let c = t.get_char(i);
        let lc = if 'A' <= c && c <= 'Z' {
            (((c as u32) + 32) as u8) as char
        } else {
            c
        };
        if lc != w.get_char(i) {
            return false;
        }
        i = i + 1;
    }
    true
}

/// The size of the board, from the reply to `query_boardsize`.
pub fn decode_board_size(resp: &ResponseWrapper) -> (r: Result<u8, AppError>)
    ensures
        r is Ok <==> resp.response.success && parsed_u8(resp.response.text@) is Some,
        r is Ok ==> Some(r->Ok_0) == parsed_u8(resp.response.text@),
        !resp.response.success ==> r->Err_0.kind == ErrorKind::Rejected && r->Err_0.message@
            == returned_message(resp.cmd_name@, resp.response.text@),
        resp.response.success && r is Err ==> r->Err_0.kind == ErrorKind::Decode && r->Err_0.message@
            == board_size_message(resp.response.text@),
{
    let text = resp.success_text()?;
    match parse_u8_from(text.as_str(), 0) {
        Some(n) => {
            assert(text@.subrange(0, text@.len() as int) =~= text@);
            Ok(n)
        },
        None => {
            assert(text@.subrange(0, text@.len() as int) =~= text@);
            let mut m = String::from_str("invalid board size: ");
            m.append(text.as_str());
            Err(AppError::new(ErrorKind::Decode, m))
        },
    }
}

/// Tags a position reported by the engine with the colour that was asked for.
fn parser_stone_with_color(color: StoneColor, at: Coords) -> (r: Stone)
    ensures
        r == (Stone { color, row: at.row, col: at.col }),
{
    Stone { color, row: at.row, col: at.col }
}

/// The stones of one colour, from the reply to `list_stones`.
pub fn decode_stones(resp: &ResponseWrapper, color: StoneColor) -> (r: Result<
    Vec<Stone>,
    AppError,
>)
    ensures
        r is Ok <==> resp.response.success && vertices_of(resp.response.text@) is Some,
        r is Ok ==> r->Ok_0@ == stones_at(color, vertices_of(resp.response.text@)->Some_0),
        !resp.response.success ==> r->Err_0.kind == ErrorKind::Rejected,
        resp.response.success && r is Err ==> r->Err_0.kind == ErrorKind::Decode,
        r is Err ==> r->Err_0.message@ == returned_message(resp.cmd_name@, resp.response.text@),
{
    let at = resp.success_vertices()?;
    let ghost v = vertices_of(resp.response.text@)->Some_0;
    let mut stones: Vec<Stone> = Vec::new();
    let mut i: usize = 0;
    while i < at.len()
        invariant
            i <= at.len(),
            at@ == v,
            stones@ =~= stones_at(color, v.subrange(0, i as int)),
        decreases at.len() - i,
    {
        stones.push(parser_stone_with_color(color, at[i]));
        i = i + 1;
        assert(stones@ =~= stones_at(color, v.subrange(0, i as int)));
    }
    assert(v.subrange(0, v.len() as int) =~= v);
    Ok(stones)
}

/// What the engine did, from the reply to `genmove`.
pub fn decode_gen_move(resp: &ResponseWrapper) -> (r: Result<GenMoveResponse, AppError>)
    ensures
        r is Ok <==> resp.response.success && gen_move_of(resp.response.text@) is Some,
        r is Ok ==> Some(r->Ok_0) == gen_move_of(resp.response.text@),
        !resp.response.success ==> r->Err_0.kind == ErrorKind::Rejected && r->Err_0.message@
            == returned_message(resp.cmd_name@, resp.response.text@),
        resp.response.success && r is Err ==> r->Err_0.kind == ErrorKind::Decode && r->Err_0.message@
            == (if vertices_of(resp.response.text@) is Some {
            no_entity_message()
        } else {
            returned_message(resp.cmd_name@, resp.response.text@)
        }),
{
    let text = resp.success_text()?;
    proof {
        reveal_strlit("pass");
        reveal_strlit("resign");
    }
    if is_word(text.as_str(), "pass") {
        assert("pass"@ =~= pass_word());
        Ok(GenMoveResponse::Pass)
    } else if is_word(text.as_str(), "resign") {
        assert("pass"@ =~= pass_word());
        assert("resign"@ =~= resign_word());
        Ok(GenMoveResponse::Resign)
    } else {
        assert("pass"@ =~= pass_word());
        assert("resign"@ =~= resign_word());
        Ok(GenMoveResponse::Position(resp.success_coords()?))
    }
}

/// How long a command may wait for its reply: move generation may search.
pub const DEFAULT_TIMEOUT_MS: u64 = 100;

pub const GENMOVE_TIMEOUT_MS: u64 = 2000;

pub open spec fn timeout_of(req: EngineRequest) -> u64 {
    match req {
        EngineRequest::GenMove(_) => GENMOVE_TIMEOUT_MS,
        _ => DEFAULT_TIMEOUT_MS,
    }
}

pub fn timeout_for(req: &EngineRequest) -> (r: u64)
    ensures
        r == timeout_of(*req),
{
    match req {
        EngineRequest::GenMove(_) => GENMOVE_TIMEOUT_MS,
        _ => DEFAULT_TIMEOUT_MS,
    }
}

/// How a reply relates to the command that waits for it.
#[derive(Debug, Clone, Copy, PartialEq, Eq, Structural)]
pub enum ReplyMatch {
    /// It answers the waiting command (or carries no id, and order decides).
    Current,
    /// It answers an earlier command that timed out: drop it and read on.
    Stale,
    /// It answers no command that was sent.
    Unknown,
}

pub open spec fn reply_match(id: u32, reply_id: u32) -> ReplyMatch {
    if reply_id == id || reply_id == 0 {
        ReplyMatch::Current
    } else if reply_id < id {
        ReplyMatch::Stale
    } else {
        ReplyMatch::Unknown
    }
}

/// What to do with a reply that arrived while a command waits.
#[derive(Debug)]
pub enum ReplyAction {
    /// The command is answered: this is its outcome.
    Done(Result<EngineResult, AppError>),
    /// The reply was late for an earlier command: drop it and wait on.
    KeepWaiting,
}

pub open spec fn unknown_reply_message(reply_id: u32) -> Seq<char> {
    "reply "@ + decimal(reply_id as nat) + " answers no command"@
}

pub open spec fn timeout_message(line: Seq<char>, elapsed: nat) -> Seq<char> {
    "Error calling command '"@ + line + "', after "@ + decimal(elapsed) + "ms"@
}

/// A command that was written to the engine and waits for its reply.
pub struct PendingCommand {
    pub request: EngineRequest,
    pub line: String,
    pub id: u32,
    pub issued_at_ms: u64,
    pub timeout_ms: u64,
}

impl PendingCommand {
    /// A command issued at `now_ms` under id `id`, with its line and deadline.
    pub fn issue(request: EngineRequest, id: u32, now_ms: u64) -> (r: PendingCommand)
        requires
            is_encodable(request),
        ensures
            r.request == request,
            r.line@ == request_line(request),
            r.id == id,
            r.issued_at_ms == now_ms,
            r.timeout_ms == timeout_of(request),
    {
        let line = encode_request(&request);
        let timeout_ms = timeout_for(&request);
        PendingCommand { request, line, id, issued_at_ms: now_ms, timeout_ms }
    }

    /// Whether the reply's deadline has passed at `now_ms`.
    pub fn is_expired(&self, now_ms: u64) -> (r: bool)
        ensures
            r == (now_ms as int >= self.issued_at_ms as int + self.timeout_ms as int),
    {
        now_ms >= self.issued_at_ms && now_ms - self.issued_at_ms >= self.timeout_ms
    }

    /// Whether a reply with id `reply_id` answers this command.
    pub fn classify_reply(&self, reply_id: u32) -> (r: ReplyMatch)
        ensures
            r == reply_match(self.id, reply_id),
    {
        if reply_id == self.id || reply_id == 0 {
            ReplyMatch::Current
        } else if reply_id < self.id {
            ReplyMatch::Stale
        } else {
            ReplyMatch::Unknown
        }
    }

    /// How long to wait on at `now_ms` (at most `u64::MAX`), or `None` once
    /// the deadline has passed.
    pub fn time_left(&self, now_ms: u64) -> (r: Option<u64>)
        ensures
            r is None <==> now_ms as int >= self.issued_at_ms as int + self.timeout_ms as int,
            r is Some ==> r->Some_0 as int == (if self.issued_at_ms as int + self.timeout_ms as int
                - now_ms as int > u64::MAX as int {
                u64::MAX as int
            } else {
                self.issued_at_ms as int + self.timeout_ms as int - now_ms as int
            }),
    {
        if self.is_expired(now_ms) {
            None
        } else if now_ms < self.issued_at_ms {
            if self.timeout_ms > u64::MAX - (self.issued_at_ms - now_ms) {
                Some(u64::MAX)
            } else {
                Some(self.timeout_ms + (self.issued_at_ms - now_ms))
            }
        } else {
            Some(self.timeout_ms - (now_ms - self.issued_at_ms))
        }
    }

    /// Handles a reply: the outcome if it answers this command, an error if
    /// it answers none, and waiting on if it is a late one.
    pub fn on_reply(&self, reply: EngineReply) -> (r: ReplyAction)
        ensures
            reply_match(self.id, reply.id) == ReplyMatch::Stale <==> r is KeepWaiting,
            reply_match(self.id, reply.id) == ReplyMatch::Current ==> r is Done && decodes_to(
                self.request,
                self.line@,
                reply.success,
                reply.text@,
                r->Done_0,
            ),
            reply_match(self.id, reply.id) == ReplyMatch::Unknown ==> r is Done && r->Done_0 is Err
                && r->Done_0->Err_0.kind == ErrorKind::Decode && r->Done_0->Err_0.message@
                == unknown_reply_message(reply.id),
    {
        match self.classify_reply(reply.id) {
            ReplyMatch::Current => ReplyAction::Done(self.decode(reply)),
            ReplyMatch::Stale => ReplyAction::KeepWaiting,
            ReplyMatch::Unknown => {
                let mut m = String::from_str("reply ");
                push_decimal(&mut m, reply.id as u64);
                m.append(" answers no command");
                ReplyAction::Done(Err(AppError::new(ErrorKind::Decode, m)))
            },
        }
    }

    /// The error for a command whose reply did not come by `now_ms`.
    pub fn timeout_error(&self, now_ms: u64) -> (r: AppError)
        ensures
            r.kind == ErrorKind::Timeout,
            r.message@ == timeout_message(
                self.line@,
                if now_ms >= self.issued_at_ms {
                    (now_ms - self.issued_at_ms) as nat
                } else {
                    0
                },
            ),
    {
        let elapsed: u64 = if now_ms >= self.issued_at_ms {
            now_ms - self.issued_at_ms
        } else {
            0
        };
        let mut m = String::from_str("Error calling command '");
        m.append(self.line.as_str());
        m.append("', after ");
        push_decimal(&mut m, elapsed);
        m.append("ms");
        AppError::new(ErrorKind::Timeout, m)
    }

    /// Decodes the reply to this command.
    pub fn decode(&self, reply: EngineReply) -> (r: Result<EngineResult, AppError>)
        ensures
            decodes_to(self.request, self.line@, reply.success, reply.text@, r),
    {
        let resp = ResponseWrapper { cmd_name: self.line.clone(), response: reply };
        match self.request {
            EngineRequest::Name | EngineRequest::ShowBoard => {
                let t = resp.success_text()?;
                Ok(EngineResult::Text(t))
            },
            EngineRequest::QueryBoardSize => {
                let n = decode_board_size(&resp)?;
                Ok(EngineResult::BoardSize(n))
            },
            EngineRequest::Play(_, _) => {
                resp.success_text()?;
                Ok(EngineResult::Played)
            },
            EngineRequest::ListStones(color) => {
                let s = decode_stones(&resp, color)?;
                Ok(EngineResult::Stones(s))
            },
            EngineRequest::GenMove(_) => {
                let g = decode_gen_move(&resp)?;
                Ok(EngineResult::Generated(g))
            },
        }
    }
}

} // verus!

verus! {

/// A position's vertex token, sent back as the engine's move or as a stone
/// list, decodes to the same position.
pub proof fn lemma_move_reply_round_trip(c: Coords, color: StoneColor)
    requires
        1 <= c.col <= 25,
        1 <= c.row <= 99,
    ensures
        gen_move_of(vertex_text(c)) == Some(GenMoveResponse::Position(c)),
        decoded(EngineRequest::ListStones(color), vertex_text(c)) == Some(
            ResultModel::Stones(seq![Stone { color, row: c.row, col: c.col }]),
        ),
{
    lemma_vertex_round_trip(c);
    lemma_decimal_small(c.row as nat);
    assert(stones_at(color, seq![c]) =~= seq![Stone { color, row: c.row, col: c.col }]);
}

} // verus!
