use crate::board::BoardCell;
use crate::board::rows_view;
use crate::columns::{input_coords, parse_input_coords};
use crate::engine::EngineResult;
use crate::entities::{Coords, OptCoords, Stone, StoneColor};
use crate::errors::AppError;
use crate::protocol::{is_encodable, EngineRequest};
use crate::store::{after_render, expected_layout, is_board_size, with_stones, BoardStore, StoreModel};
use crate::text::{is_digit, pop_char, push_char};
use vstd::prelude::*;

verus! {

/// An abstract input event.
#[derive(Debug, Clone, Copy, PartialEq, Eq, Structural)]
pub enum InputSymbol {
    Char(char),
    Backspace,
    Commit,
    Quit,
}

/// Whether the coordinator accepts input, waits for the engine, or shows an
/// error.
#[derive(Debug, Clone, Copy, PartialEq, Eq, Structural)]
pub enum GtpStatus {
    Loading,
    Idle,
    Error,
}

/// The reply that a loading coordinator waits for.
#[derive(Debug, Clone, Copy, PartialEq, Eq, Structural)]
pub enum Stage {
    Play,
    BlackAfterPlay,
    WhiteAfterPlay,
    GenMove,
    BlackAfterGen,
    WhiteAfterGen,
}

/// The shape of an engine outcome.
#[derive(Debug, Clone, Copy, PartialEq, Eq, Structural)]
pub enum OutcomeKind {
    Failed,
    Played,
    Stones,
    Generated,
    Other,
}

pub open spec fn outcome_kind(o: Result<EngineResult, AppError>) -> OutcomeKind {
    match o {
        Err(_) => OutcomeKind::Failed,
        Ok(EngineResult::Played) => OutcomeKind::Played,
        Ok(EngineResult::Stones(_)) => OutcomeKind::Stones,
        Ok(EngineResult::Generated(_)) => OutcomeKind::Generated,
        Ok(_) => OutcomeKind::Other,
    }
}

/// One step of the move round trip: the status and stage after an outcome,
/// and the request to issue next. A played move is followed by both stone
/// lists, then the engine's move, then both lists again.
pub open spec fn reply_step(status: GtpStatus, stage: Stage, player: StoneColor, k: OutcomeKind) -> (
    GtpStatus,
    Stage,
    Option<EngineRequest>,
) {
    if status != GtpStatus::Loading {
        (status, stage, None)
    } else {
        match (stage, k) {
            (Stage::Play, OutcomeKind::Played) => (
                GtpStatus::Loading,
                Stage::BlackAfterPlay,
                Some(EngineRequest::ListStones(StoneColor::Black)),
            ),
            (Stage::BlackAfterPlay, OutcomeKind::Stones) => (
                GtpStatus::Loading,
                Stage::WhiteAfterPlay,
                Some(EngineRequest::ListStones(StoneColor::White)),
            ),
            (Stage::WhiteAfterPlay, OutcomeKind::Stones) => (
                GtpStatus::Loading,
                Stage::GenMove,
                Some(EngineRequest::GenMove(player.spec_inverse())),
            ),
            (Stage::GenMove, OutcomeKind::Generated) => (
                GtpStatus::Loading,
                Stage::BlackAfterGen,
                Some(EngineRequest::ListStones(StoneColor::Black)),
            ),
            (Stage::BlackAfterGen, OutcomeKind::Stones) => (
                GtpStatus::Loading,
                Stage::WhiteAfterGen,
                Some(EngineRequest::ListStones(StoneColor::White)),
            ),
            (Stage::WhiteAfterGen, OutcomeKind::Stones) => (GtpStatus::Idle, stage, None),
            _ => (GtpStatus::Error, stage, None),
        }
    }
}

/// The letters that start a move: A to T without I.
pub open spec fn is_input_letter(c: char) -> bool {
    'A' <= c && c <= 'T' && c != 'I'
}

/// The move input after an input symbol, while idle: one column letter, then
/// up to two digits.
pub open spec fn next_pending(p: Seq<char>, sym: InputSymbol) -> Seq<char> {
    match sym {
        InputSymbol::Char(c) => if is_input_letter(c) && p.len() == 0 {
            seq![c]
        } else if is_digit(c) && 0 < p.len() < 3 {
            p.push(c)
        } else {
            p
        },
        InputSymbol::Backspace => if p.len() > 0 {
            p.drop_last()
        } else {
            p
        },
        InputSymbol::Commit => if input_coords(p).is_complete() {
            Seq::empty()
        } else {
            p
        },
        InputSymbol::Quit => p,
    }
}

pub open spec fn coords_of(h: OptCoords) -> Coords {
    Coords { row: h.row->Some_0, col: h.col->Some_0 }
}

/// The coordinator as a value.
pub struct GameModel {
    pub store: StoreModel,
    pub status: GtpStatus,
    pub stage: Stage,
    pub player: StoneColor,
    pub fetched_black: Seq<Stone>,
    pub error: Option<Seq<char>>,
    pub should_exit: bool,
}

/// Turns input into engine requests and keeps the board store in step with
/// the engine's replies.
pub struct GoGame {
    store: BoardStore,
    status: GtpStatus,
    stage: Stage,
    player_color: StoneColor,
    fetched_black: Vec<Stone>,
    gtp_error: Option<String>,
    should_exit: bool,
}

pub open spec fn opt_view(s: Option<String>) -> Option<Seq<char>> {
    match s {
        Some(t) => Some(t@),
        None => None,
    }
}

impl View for GoGame {
    type V = GameModel;

    closed spec fn view(&self) -> GameModel {
        GameModel {
            store: self.store@,
            status: self.status,
            stage: self.stage,
            player: self.player_color,
            fetched_black: self.fetched_black@,
            error: opt_view(self.gtp_error),
            should_exit: self.should_exit,
        }
    }
}

impl GoGame {
    /// The store is well formed.
    pub closed spec fn store_wf(&self) -> bool {
        self.store.wf() && self@.store == self.store@
    }

    /// The store is well formed and the highlight is what the move input names.
    pub open spec fn wf(&self) -> bool {
        &&& self.store_wf()
        &&& self@.store.highlight == input_coords(self@.store.pending)
    }

    pub fn new(board_size: u8, player_color: StoneColor) -> (r: GoGame)
        requires
            is_board_size(board_size),
        ensures
            r.wf(),
            r@.store.board_size == board_size,
            r@.store.white.len() == 0 && r@.store.black.len() == 0,
            r@.store.pending.len() == 0,
            r@.store.highlight == (OptCoords { row: None, col: None }),
            r@.status == GtpStatus::Idle,
            r@.stage == Stage::Play,
            r@.fetched_black.len() == 0,
            r@.player == player_color,
            r@.error is None,
            !r@.should_exit,
    {
        let store = BoardStore::new(board_size);
        proof {
            assert(store@.pending =~= Seq::<char>::empty());
        }
        GoGame {
            store,
            status: GtpStatus::Idle,
            stage: Stage::Play,
            player_color,
            fetched_black: Vec::new(),
            gtp_error: None,
            should_exit: false,
        }
    }

    /// Sets the highlight to what the move input names.
    fn refresh_highlight_coords(&mut self)
        requires
            old(self).store_wf(),
        ensures
            final(self).wf(),
            final(self)@ == (GameModel {
                store: StoreModel {
                    highlight: input_coords(old(self)@.store.pending),
                    dirty: true,
                    ..old(self)@.store
                },
                ..old(self)@
            }),
    {
        let text = self.store.next_move_input().clone();
        self.store.set_highlight(parse_input_coords(text));
    }

    fn set_next_move_input(&mut self, text: String)
        requires
            old(self).store_wf(),
        ensures
            final(self).wf(),
            final(self)@ == (GameModel {
                store: StoreModel {
                    pending: text@,
                    highlight: input_coords(text@),
                    dirty: true,
                    ..old(self)@.store
                },
                ..old(self)@
            }),
    {
        self.store.set_pending_input(text);
        self.refresh_highlight_coords();
    }

    /// Handles one input symbol; returns the request to send, if any.
    /// Quitting works in every state. While loading, input is ignored. In the
    /// error state the next other key acknowledges the error and returns to
    /// idle, and is not applied.
    pub fn on_input(&mut self, sym: InputSymbol) -> (r: Option<EngineRequest>)
        requires
            old(self).wf(),
        ensures
            final(self).wf(),
            r is Some ==> is_encodable(r->Some_0),
            sym == InputSymbol::Quit ==> r is None && final(self)@ == (GameModel {
                should_exit: true,
                ..old(self)@
            }),
            sym != InputSymbol::Quit && old(self)@.status == GtpStatus::Loading ==> r is None
                && final(self)@ == old(self)@,
            sym != InputSymbol::Quit && old(self)@.status == GtpStatus::Error ==> r is None
                && final(self)@ == (GameModel {
                status: GtpStatus::Idle,
                error: None,
                ..old(self)@
            }),
            sym != InputSymbol::Quit && old(self)@.status == GtpStatus::Idle ==> {
                let p = next_pending(old(self)@.store.pending, sym);
                let commit = sym == InputSymbol::Commit && old(self)@.store.highlight.is_complete();
                &&& final(self)@.store.pending == p
                &&& final(self)@.store.highlight == input_coords(p)
                &&& final(self)@.store.white == old(self)@.store.white
                &&& final(self)@.store.black == old(self)@.store.black
                &&& final(self)@.store.board_size == old(self)@.store.board_size
                &&& final(self)@.player == old(self)@.player
                &&& final(self)@.error == old(self)@.error
                &&& final(self)@.should_exit == old(self)@.should_exit
                &&& commit ==> final(self)@.status == GtpStatus::Loading && final(self)@.stage
                    == Stage::Play && r == Some(
                    EngineRequest::Play(old(self)@.player, coords_of(old(self)@.store.highlight)),
                )
                &&& !commit ==> final(self)@.status == GtpStatus::Idle && r is None
            },
    {
        if let InputSymbol::Quit = sym {
            // quitting is an exit status the caller acts on
            self.should_exit = true;
            return None;
        }
        match self.status {
            GtpStatus::Loading => {
                return None;
            },
            GtpStatus::Error => {
                self.status = GtpStatus::Idle;
                self.gtp_error = None;
                return None;
            },
            GtpStatus::Idle => {},
        }
        let ghost p0 = self.store@.pending;
        match sym {
            InputSymbol::Char(c) => {
                let n = self.store.next_move_input().as_str().unicode_len();
                if 'A' <= c && c <= 'T' && c != 'I' {
                    if n == 0 {
                        let mut text = String::new();
                        push_char(&mut text, c);
                        assert(text@ =~= seq![c]);
                        self.set_next_move_input(text);
                    }
                } else if '0' <= c && c <= '9' {
                    if n > 0 && n < 3 {
                        let mut text = self.store.next_move_input().clone();
                        push_char(&mut text, c);
                        self.set_next_move_input(text);
                    }
                }
                None
            },
            InputSymbol::Backspace => {
                if self.store.next_move_input().as_str().unicode_len() > 0 {
                    let mut text = self.store.next_move_input().clone();
                    pop_char(&mut text);
                    self.set_next_move_input(text);
                }
                None
            },
            InputSymbol::Commit => {
                match self.store.get_valid_highlight_coords() {
                    Some(coords) => {
                        self.status = GtpStatus::Loading;
                        self.stage = Stage::Play;
                        let empty = String::new();
                        self.set_next_move_input(empty);
                        assert(self@.store.pending =~= Seq::<char>::empty());
                        Some(EngineRequest::Play(self.player_color, coords))
                    },
                    None => None,
                }
            },
            InputSymbol::Quit => None,
        }
    }

    /// Handles the outcome of the request that was sent last; returns the next
    /// request of the round trip, if any. A failure, a timeout included, moves
    /// to the error state and keeps the stones that were last fetched.
    pub fn on_engine_result(&mut self, outcome: Result<EngineResult, AppError>) -> (r: Option<
        EngineRequest,
    >)
        requires
            old(self).wf(),
        ensures
            final(self).wf(),
            r is Some ==> is_encodable(r->Some_0),
            (final(self)@.status, final(self)@.stage, r) == reply_step(
                old(self)@.status,
                old(self)@.stage,
                old(self)@.player,
                outcome_kind(outcome),
            ),
            old(self)@.status != GtpStatus::Loading ==> final(self)@ == old(self)@,
            old(self)@.status == GtpStatus::Loading && (old(self)@.stage == Stage::BlackAfterPlay
                || old(self)@.stage == Stage::BlackAfterGen) && outcome_kind(outcome)
                == OutcomeKind::Stones ==> final(self)@.fetched_black == outcome->Ok_0->Stones_0@,
            final(self)@.player == old(self)@.player,
            final(self)@.store.board_size == old(self)@.store.board_size,
            final(self)@.store.pending == old(self)@.store.pending,
            final(self)@.should_exit == old(self)@.should_exit,
            old(self)@.status == GtpStatus::Loading && outcome is Err ==> final(self)@.error == Some(
                outcome->Err_0.message@,
            ),
            old(self)@.status == GtpStatus::Loading && outcome is Err ==> {
                &&& final(self)@.status == GtpStatus::Error
                &&& final(self)@.store.white == old(self)@.store.white
                &&& final(self)@.store.black == old(self)@.store.black
            },
            old(self)@.status == GtpStatus::Loading && (old(self)@.stage == Stage::WhiteAfterPlay
                || old(self)@.stage == Stage::WhiteAfterGen) && outcome_kind(outcome)
                == OutcomeKind::Stones ==> final(self)@.store == with_stones(
                old(self)@.store,
                old(self)@.fetched_black,
                outcome->Ok_0->Stones_0@,
            ),
            !(old(self)@.status == GtpStatus::Loading && (old(self)@.stage == Stage::WhiteAfterPlay
                || old(self)@.stage == Stage::WhiteAfterGen) && outcome_kind(outcome)
                == OutcomeKind::Stones) ==> final(self)@.store == old(self)@.store,
    {
        if self.status != GtpStatus::Loading {
            return None;
        }
        match outcome {
            Err(e) => {
                self.gtp_error = Some(e.message);
                self.status = GtpStatus::Error;
                None
            },
            Ok(result) => match (self.stage, result) {
                (Stage::Play, EngineResult::Played) => {
                    self.stage = Stage::BlackAfterPlay;
                    Some(EngineRequest::ListStones(StoneColor::Black))
                },
                (Stage::BlackAfterPlay, EngineResult::Stones(black)) => {
                    self.fetched_black = black;
                    self.stage = Stage::WhiteAfterPlay;
                    Some(EngineRequest::ListStones(StoneColor::White))
                },
                (Stage::WhiteAfterPlay, EngineResult::Stones(white)) => {
                    let black = self.fetched_black.clone();
                    assert(black@ =~= self.fetched_black@);
                    self.store.set_stones(black, white);
                    self.stage = Stage::GenMove;
                    Some(EngineRequest::GenMove(self.player_color.inverse()))
                },
                (Stage::GenMove, EngineResult::Generated(_)) => {
                    self.stage = Stage::BlackAfterGen;
                    Some(EngineRequest::ListStones(StoneColor::Black))
                },
                (Stage::BlackAfterGen, EngineResult::Stones(black)) => {
                    self.fetched_black = black;
                    self.stage = Stage::WhiteAfterGen;
                    Some(EngineRequest::ListStones(StoneColor::White))
                },
                (Stage::WhiteAfterGen, EngineResult::Stones(white)) => {
                    let black = self.fetched_black.clone();
                    assert(black@ =~= self.fetched_black@);
                    self.store.set_stones(black, white);
                    self.status = GtpStatus::Idle;
                    None
                },
                _ => {
                    proof {
                        reveal_strlit("unexpected reply from the engine");
                    }
                    self.gtp_error = Some(String::from_str("unexpected reply from the engine"));
                    self.status = GtpStatus::Error;
                    None
                },
            },
        }
    }

    /// The render layout of the board, rebuilt first if anything changed.
    pub fn render_layout(&mut self) -> (r: &Vec<Vec<BoardCell>>)
        requires
            old(self).wf(),
        ensures
            final(self).wf(),
            final(self)@ == (GameModel { store: after_render(old(self)@.store), ..old(self)@ }),
            rows_view(r@) == expected_layout(final(self)@.store),
    {
        self.store.get_render_layout()
    }

    pub fn store(&self) -> (r: &BoardStore)
        ensures
            r@ == self@.store,
    {
        &self.store
    }

    pub fn status(&self) -> (r: GtpStatus)
        ensures
            r == self@.status,
    {
        self.status
    }

    pub fn error_message(&self) -> (r: Option<String>)
        ensures
            opt_view(r) == self@.error,
    {
        match &self.gtp_error {
            Some(m) => Some(m.clone()),
            None => None,
        }
    }

    pub fn should_exit(&self) -> (r: bool)
        ensures
            r == self@.should_exit,
    {
        self.should_exit
    }

    pub fn player_color(&self) -> (r: StoneColor)
        ensures
            r == self@.player,
    {
        self.player_color
    }
}

/// A played move is followed by exactly two stone listings, black then
/// white, before the engine is asked for its move; if either listing fails,
/// no move is asked for.
pub proof fn lemma_play_then_two_listings(player: StoneColor, k2: OutcomeKind, k3: OutcomeKind)
    ensures
        ({
            let (s1, g1, r1) = reply_step(GtpStatus::Loading, Stage::Play, player, OutcomeKind::Played);
            let (s2, g2, r2) = reply_step(s1, g1, player, k2);
            let (s3, g3, r3) = reply_step(s2, g2, player, k3);
            &&& r1 == Some(EngineRequest::ListStones(StoneColor::Black))
            &&& k2 == OutcomeKind::Stones ==> r2 == Some(EngineRequest::ListStones(StoneColor::White))
            &&& k2 != OutcomeKind::Stones ==> r2 is None && s2 == GtpStatus::Error && r3 is None
            &&& k2 == OutcomeKind::Stones && k3 == OutcomeKind::Stones ==> r3 == Some(
                EngineRequest::GenMove(player.spec_inverse()),
            )
            &&& k2 == OutcomeKind::Stones && k3 != OutcomeKind::Stones ==> r3 is None && s3
                == GtpStatus::Error
        }),
{
}

/// The engine is asked for a move only right after the white listing that
/// follows the black listing that follows a played move.
pub proof fn lemma_gen_move_only_after_listings(
    status: GtpStatus,
    stage: Stage,
    player: StoneColor,
    k: OutcomeKind,
)
    ensures
        reply_step(status, stage, player, k).2 matches Some(EngineRequest::GenMove(_)) ==> status
            == GtpStatus::Loading && stage == Stage::WhiteAfterPlay && k == OutcomeKind::Stones,
        reply_step(status, stage, player, k).1 == Stage::WhiteAfterPlay && status == GtpStatus::Loading
            && stage != Stage::WhiteAfterPlay ==> stage == Stage::BlackAfterPlay && reply_step(
            status,
            stage,
            player,
            k,
        ).2 == Some(EngineRequest::ListStones(StoneColor::White)),
        reply_step(status, stage, player, k).1 == Stage::BlackAfterPlay && status == GtpStatus::Loading
            && stage != Stage::BlackAfterPlay ==> stage == Stage::Play && reply_step(
            status,
            stage,
            player,
            k,
        ).2 == Some(EngineRequest::ListStones(StoneColor::Black)),
{
}

} // verus!
