use crate::columns::{column_number, is_column_char};
use crate::entities::Coords;
use crate::errors::{AppError, ErrorKind};
use crate::protocol::{vertex_text, views};
use crate::text::{all_digits, decimal, digit_char, digit_value, digits_value, is_digit, push_char};
use vstd::prelude::*;

verus! {

pub open spec fn is_separator(c: char) -> bool {
    c == ' ' || c == '\n'
}

/// The tokens finished so far and the one being read, after reading `s`.
pub open spec fn scan_tokens(s: Seq<char>) -> (Seq<Seq<char>>, Seq<char>)
    decreases s.len(),
{
    if s.len() == 0 {
        (Seq::empty(), Seq::empty())
    } else {
        let (done, cur) = scan_tokens(s.drop_last());
        if is_separator(s.last()) {
            if cur.len() > 0 {
                (done.push(cur), Seq::empty())
            } else {
                (done, Seq::empty())
            }
        } else {
            (done, cur.push(s.last()))
        }
    }
}

/// The words of a reply: the runs of characters between spaces and line breaks.
pub open spec fn tokens(s: Seq<char>) -> Seq<Seq<char>> {
    let (done, cur) = scan_tokens(s);
    if cur.len() > 0 {
        done.push(cur)
    } else {
        done
    }
}

/// Splits a reply text into its words.
///
/// This is the reply framing of this client, not gtp's `EntityParser`: a
/// reply that ends in two or more spaces or line breaks reads here as the
/// words before them, where gtp's parser would report a parse error. Each
/// word is then read as a vertex by gtp (see `parse_vertex`).
pub fn split_tokens(text: &str) -> (r: Vec<String>)
    ensures
        views(r@) == tokens(text@),
{
    let n = text.unicode_len();
    let mut done: Vec<String> = Vec::new();
    let mut cur = String::new();
    let mut i: usize = 0;
    while i < n
        invariant
            i <= n,
            n == text@.len(),
            (views(done@), cur@) == scan_tokens(text@.subrange(0, i as int)),
        decreases n - i,
    {
        let c = text.get_char(i);
        let ghost before = text@.subrange(0, i as int);
        let ghost after = text@.subrange(0, i + 1 as int);
        assert(after.drop_last() =~= before);
        assert(after.last() == c);
        if c == ' ' || c == '\n' {
            if cur.unicode_len() > 0 {
                let ghost old_done = done@;
                done.push(cur);
                assert(views(done@) =~= views(old_done).push(cur@));
                cur = String::new();
            }
        } else {
            push_char(&mut cur, c);
        }
        assert(cur@ =~= scan_tokens(after).1);
        i = i + 1;
    }
    assert(text@.subrange(0, n as int) =~= text@);
    if cur.unicode_len() > 0 {
        let ghost old_done = done@;
        done.push(cur);
        assert(views(done@) =~= views(old_done).push(cur@));
    }
    done
}

/// What gtp's entity parser reads from one token as a vertex.
pub uninterp spec fn vertex_of_token(tok: Seq<char>) -> Option<(i32, i32)>;

/// A token in the plain vertex shape: a capital letter, then one or two digits.
pub open spec fn is_plain_vertex(tok: Seq<char>) -> bool {
    2 <= tok.len() <= 3 && is_column_char(tok[0]) && all_digits(tok.drop_first())
}

/// Relies on gtp's `EntityParser::vertex` on a single token: `pass` reads as
/// (0, 0); a letter and a decimal number read as the letter's column (I and H
/// share one) and the number.
#[verifier::external_body]
fn gtp_parse_vertex(tok: &str) -> (r: Option<(i32, i32)>)
    ensures
        r == vertex_of_token(tok@),
        is_plain_vertex(tok@) ==> r == Some(
            (column_number(tok@[0]) as i32, digits_value(tok@.drop_first()) as i32),
        ),
{
    let mut ep = gtp::EntityParser::new(tok);
    ep.vertex();
    match ep.result() {
        Some(v) => match v.first() {
            Some(gtp::Entity::Vertex(p)) => Some(*p),
            _ => None,
        },
        None => None,
    }
}

/// The position that a token of the plain vertex shape spells.
pub open spec fn plain_vertex(tok: Seq<char>) -> (int, int) {
    (column_number(tok[0]) as int, digits_value(tok.drop_first()) as int)
}

/// The board position that a token names: both coordinates between 1 and 255.
pub open spec fn board_vertex(tok: Seq<char>) -> Option<Coords> {
    if is_plain_vertex(tok) {
        let (h, v) = plain_vertex(tok);
        if 1 <= h <= 255 && 1 <= v <= 255 {
            Some(Coords { row: v as u8, col: h as u8 })
        } else {
            None
        }
    } else {
        match vertex_of_token(tok) {
        Some((h, v)) => if 1 <= h <= 255 && 1 <= v <= 255 {
            Some(Coords { row: v as u8, col: h as u8 })
        } else {
            None
        },
        None => None,
    }
    }
}

/// The positions that a reply text lists, if every word is one.
pub open spec fn vertices_of(text: Seq<char>) -> Option<Seq<Coords>> {
    let t = tokens(text);
    if forall|i: int| 0 <= i < t.len() ==> (#[trigger] board_vertex(t[i])) is Some {
        Some(Seq::new(t.len(), |i: int| board_vertex(t[i])->Some_0))
    } else {
        None
    }
}

/// Reads one token as a board position.
pub fn parse_vertex(tok: &str) -> (r: Option<Coords>)
    ensures
        r == board_vertex(tok@),
{
    let p = gtp_parse_vertex(tok);
    proof {
        if is_plain_vertex(tok@) {
            lemma_digits_bound(tok@.drop_first());
        }
    }
    match p {
        Some((h, v)) => if 1 <= h && h <= 255 && 1 <= v && v <= 255 {
            Some(Coords { row: v as u8, col: h as u8 })
        } else {
            None
        },
        None => None,
    }
}

/// Reads a reply text as a list of board positions.
pub fn parse_vertices(text: &str) -> (r: Option<Vec<Coords>>)
    ensures
        r is Some <==> vertices_of(text@) is Some,
        r is Some ==> r->Some_0@ == vertices_of(text@)->Some_0,
{
    let toks = split_tokens(text);
    let ghost t = tokens(text@);
    let mut out: Vec<Coords> = Vec::new();
    let mut i: usize = 0;
    while i < toks.len()
        invariant
            i <= toks.len(),
            views(toks@) == t,
            t == tokens(text@),
            out@.len() == i,
            forall|j: int| 0 <= j < i ==> (#[trigger] board_vertex(t[j])) == Some(out@[j]),
        decreases toks.len() - i,
    {
        assert(toks@[i as int]@ == t[i as int]);
        match parse_vertex(toks[i].as_str()) {
            Some(c) => {
                out.push(c);
            },
            None => {
                assert(board_vertex(t[i as int]) is None);
                return None;
            },
        }
        i = i + 1;
    }
    assert(out@ =~= Seq::new(t.len(), |i: int| board_vertex(t[i])->Some_0));
    Some(out)
}

/// One or two digits spell at most 99.
proof fn lemma_digits_bound(s: Seq<char>)
    requires
        1 <= s.len() <= 2,
        all_digits(s),
    ensures
        digits_value(s) <= 99,
{
    let d = s.drop_last();
    assert(digit_value(s.last()) <= 9);
    assert(is_digit(s.last()));
    if d.len() == 1 {
        assert(d.drop_last().len() == 0);
        assert(digits_value(d.drop_last()) == 0);
        assert(d.last() == s[0]);
        assert(is_digit(s[0]));
        assert(digits_value(d) == digit_value(d.last()));
    } else {
        assert(digits_value(d) == 0);
    }
}

proof fn lemma_digit_char(n: nat)
    requires
        n < 10,
    ensures
        is_digit(digit_char(n)),
        digit_value(digit_char(n)) == n,
{
    let b = (n + 48) as u8;
    assert(b as nat == n + 48);
    assert((b as char) as nat == b as nat);
}

/// The decimal digits of a number below 100 are one or two digits that
/// spell it.
pub(crate) proof fn lemma_decimal_small(n: nat)
    requires
        n < 100,
    ensures
        1 <= decimal(n).len() <= 2,
        all_digits(decimal(n)),
        digits_value(decimal(n)) == n,
{
    if n < 10 {
        let d = decimal(n);
        lemma_digit_char(n);
        assert(d.drop_last().len() == 0);
        assert(digits_value(d.drop_last()) == 0);
    } else {
        let d = decimal(n);
        let hi = decimal(n / 10);
        lemma_digit_char(n / 10);
        lemma_digit_char(n % 10);
        assert(hi.drop_last().len() == 0);
        assert(digits_value(hi.drop_last()) == 0);
        assert(digits_value(hi) == n / 10);
        assert(d.drop_last() =~= hi);
        assert(d.last() == digit_char(n % 10));
        assert(digits_value(d) == (n / 10) * 10 + n % 10);
    }
}

/// A nonempty word without spaces or line breaks is the only token of itself.
proof fn lemma_single_token(t: Seq<char>)
    requires
        forall|i: int| 0 <= i < t.len() ==> !is_separator(#[trigger] t[i]),
    ensures
        scan_tokens(t) == (Seq::<Seq<char>>::empty(), t),
    decreases t.len(),
{
    if t.len() > 0 {
        let d = t.drop_last();
        assert forall|i: int| 0 <= i < d.len() implies !is_separator(#[trigger] d[i]) by {
            assert(d[i] == t[i]);
        }
        lemma_single_token(d);
        assert(d.push(t.last()) =~= t);
    }
}

/// A position's vertex token reads back as the same position, alone and as
/// a whole reply, and as the engine's move.
pub proof fn lemma_vertex_round_trip(c: Coords)
    requires
        1 <= c.col <= 25,
        1 <= c.row <= 99,
    ensures
        board_vertex(vertex_text(c)) == Some(c),
        tokens(vertex_text(c)) == seq![vertex_text(c)],
        vertices_of(vertex_text(c)) == Some(seq![c]),
{
    let t = vertex_text(c);
    let digits = decimal(c.row as nat);
    lemma_decimal_small(c.row as nat);
    assert(t.drop_first() =~= digits);
    assert(is_column_char(t[0]));
    assert forall|i: int| 0 <= i < t.len() implies !is_separator(#[trigger] t[i]) by {
        if i > 0 {
            assert(t[i] == digits[i - 1]);
            assert(is_digit(digits[i - 1]));
        }
    }
    lemma_single_token(t);
    let toks = tokens(t);
    assert(toks =~= seq![t]);
    assert(toks[0] == t);
    assert(vertices_of(t)->Some_0 =~= seq![c]);
}

/// A reply of the engine: the id it echoed (0 where none), whether it carries
/// the success marker, and its text.
#[derive(Debug)]
pub struct EngineReply {
    pub id: u32,
    pub success: bool,
    pub text: String,
}

/// The message of a reply that the client could not use.
pub open spec fn returned_message(cmd: Seq<char>, text: Seq<char>) -> Seq<char> {
    "cmd '"@ + cmd + "' returned '"@ + text + "'"@
}

pub open spec fn no_entity_message() -> Seq<char> {
    "No entity found on response"@
}

pub fn returned_error(kind: ErrorKind, cmd: &str, text: &str) -> (r: AppError)
    ensures
        r.kind == kind,
        r.message@ == returned_message(cmd@, text@),
{
    let mut m = String::from_str("cmd '");
    m.append(cmd);
    m.append("' returned '");
    m.append(text);
    m.append("'");
    AppError::new(kind, m)
}

/// A reply together with the line of the command that it answers.
pub struct ResponseWrapper {
    pub cmd_name: String,
    pub response: EngineReply,
}

impl ResponseWrapper {
    /// The text of a successful reply.
    pub fn success_text(&self) -> (r: Result<String, AppError>)
        ensures
            r is Ok <==> self.response.success,
            r is Ok ==> r->Ok_0@ == self.response.text@,
            r is Err ==> r->Err_0.kind == ErrorKind::Rejected && r->Err_0.message@
                == returned_message(self.cmd_name@, self.response.text@),
    {
        if self.response.success {
            Ok(self.response.text.clone())
        } else {
            Err(returned_error(ErrorKind::Rejected, self.cmd_name.as_str(), self.response.text.as_str()))
        }
    }

    /// The positions that a successful reply lists.
    pub fn success_vertices(&self) -> (r: Result<Vec<Coords>, AppError>)
        ensures
            r is Ok <==> self.response.success && vertices_of(self.response.text@) is Some,
            r is Ok ==> r->Ok_0@ == vertices_of(self.response.text@)->Some_0,
            !self.response.success ==> r->Err_0.kind == ErrorKind::Rejected,
            self.response.success && vertices_of(self.response.text@) is None ==> r->Err_0.kind
                == ErrorKind::Decode,
            r is Err ==> r->Err_0.message@ == returned_message(
                self.cmd_name@,
                self.response.text@,
            ),
    {
        if !self.response.success {
            return Err(returned_error(ErrorKind::Rejected, self.cmd_name.as_str(), self.response.text.as_str()));
        }
        match parse_vertices(self.response.text.as_str()) {
            Some(v) => Ok(v),
            None => Err(returned_error(ErrorKind::Decode, self.cmd_name.as_str(), self.response.text.as_str())),
        }
    }

    /// The last position that a successful reply lists.
    pub fn success_coords(&self) -> (r: Result<Coords, AppError>)
        ensures
            r is Ok <==> self.response.success && vertices_of(self.response.text@) is Some
                && vertices_of(self.response.text@)->Some_0.len() > 0,
            r is Ok ==> r->Ok_0 == vertices_of(self.response.text@)->Some_0.last(),
            !self.response.success ==> r->Err_0.kind == ErrorKind::Rejected,
            self.response.success && !(r is Ok) ==> r->Err_0.kind == ErrorKind::Decode,
            r is Err ==> r->Err_0.message@ == (if self.response.success && vertices_of(
                self.response.text@,
            ) is Some {
                no_entity_message()
            } else {
                returned_message(self.cmd_name@, self.response.text@)
            }),
    {
        let mut v = self.success_vertices()?;
        match v.pop() {
            Some(c) => Ok(c),
            None => {
                Err(AppError::new(ErrorKind::Decode, String::from_str("No entity found on response")))
            },
        }
    }
}

} // verus!
