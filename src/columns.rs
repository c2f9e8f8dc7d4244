use crate::entities::OptCoords;
use crate::errors::{AppError, ErrorKind};
use crate::text::{all_digits, digit_value, digits_value, is_digit, parsed_u8};
use vstd::prelude::*;

verus! {

/// The letter of board column `col`; the letter I is not used.
pub open spec fn column_letter(col: nat) -> char {
    if col >= 9 {
        ((64 + col + 1) as u8) as char
    } else {
        ((64 + col) as u8) as char
    }
}

/// The column number of letter `c`; I and H share a number.
pub open spec fn column_number(c: char) -> nat {
    let n = (c as nat) - 64;
    if n >= 9 {
        (n - 1) as nat
    } else {
        n as nat
    }
}

/// The letters that name a column: A to Z.
pub open spec fn is_column_char(c: char) -> bool {
    'A' <= c && c <= 'Z'
}

/// The column that the first character of an input names, if any.
pub open spec fn column_of(c: char) -> Option<u8> {
    if is_column_char(c) {
        Some(column_number(c) as u8)
    } else {
        None
    }
}

/// What a partial move input names: a column letter, then a row number.
pub open spec fn input_coords(s: Seq<char>) -> OptCoords {
    OptCoords {
        col: if s.len() > 0 {
            column_of(s[0])
        } else {
            None
        },
        row: if s.len() > 1 {
            parsed_u8(s.drop_first())
        } else {
            None
        },
    }
}

pub fn get_column_name(col: u8) -> (r: char)
    requires
        col <= 190,
    ensures
        r == column_letter(col as nat),
{
    // the letter I is skipped
    let add: u8 = if col >= 9 { 1 } else { 0 };
    (64u8 + col + add) as char
}

pub fn get_column_number(col: char) -> (r: u8)
    requires
        is_column_char(col),
    ensures
        r == column_number(col),
{
    let col_nr: u8 = (col as u8) - 64u8;
    let remove: u8 = if col_nr >= 9 { 1 } else { 0 };
    col_nr - remove
}

/// Reads a byte the way `u8`'s `from_str` does, from `s[from..]`.
pub(crate) fn parse_u8_from(s: &str, from: usize) -> (r: Option<u8>)
    requires
        from <= s@.len(),
    ensures
        r == parsed_u8(s@.subrange(from as int, s@.len() as int)),
{
    let n = s.unicode_len();
    let ghost whole = s@.subrange(from as int, n as int);
    let mut i: usize = from;
    if from < n && s.get_char(from) == '+' {
        i = from + 1;
    }
    let ghost d = s@.subrange(i as int, n as int);
    assert(d =~= (if whole.len() > 0 && whole[0] == '+' {
        whole.drop_first()
    } else {
        whole
    }));
    if i >= n {
        return None;
    }
    let start = i;
    let mut acc: u32 = 0;
    while i < n
        invariant
            start <= i <= n,
            n == s@.len(),
            d == s@.subrange(start as int, n as int),
            from <= n,
            whole == s@.subrange(from as int, n as int),
            d == (if whole.len() > 0 && whole[0] == '+' {
                whole.drop_first()
            } else {
                whole
            }),
            all_digits(s@.subrange(start as int, i as int)),
            acc <= 256,
            acc == if digits_value(s@.subrange(start as int, i as int)) < 256 {
                digits_value(s@.subrange(start as int, i as int))
            } else {
                256
            },
        decreases n - i,
    {
        let c = s.get_char(i);
        if !('0' <= c && c <= '9') {
            assert(d[i - start] == c);
            assert(!is_digit(d[i - start]));
            assert(!all_digits(d));
            return None;
        }
        let ghost pre = s@.subrange(start as int, i as int);
        let ghost next = s@.subrange(start as int, i + 1 as int);
        assert(next.drop_last() =~= pre);
        assert(next.last() == c);
        let dv: u32 = (c as u32) - 48;
        assert(dv as nat == digit_value(c));
        let ghost pv = digits_value(pre);
        assert(digits_value(next) == pv * 10 + dv);
        if acc >= 256 {
            assert(pv * 10 + dv >= 256) by (nonlinear_arith)
                requires
                    pv >= 256,
            ;
        } else {
            let t = acc * 10 + dv;
            acc = if t >= 256 { 256 } else { t };
        }
        assert forall|j: int| 0 <= j < next.len() implies is_digit(#[trigger] next[j]) by {
            if j < pre.len() {
                assert(next[j] == pre[j]);
            }
        }
        i = i + 1;
    }
    assert(s@.subrange(start as int, i as int) =~= d);
    if acc <= 255 {
        Some(acc as u8)
    } else {
        None
    }
}

/// The position that a partial move input names.
pub fn parse_input_coords(input: String) -> (r: OptCoords)
    ensures
        r == input_coords(input@),
{
    let s = input.as_str();
    let n = s.unicode_len();
    let col: Option<u8> = if n > 0 {
        let c = s.get_char(0);
        if 'A' <= c && c <= 'Z' {
            Some(get_column_number(c))
        } else {
            None
        }
    } else {
        None
    };
    let row: Option<u8> = if n > 1 {
        let r = parse_u8_from(s, 1);
        assert(s@.subrange(1, s@.len() as int) =~= s@.drop_first());
        r
    } else {
        None
    };
    OptCoords { col, row }
}

/// A colour given as red, green and blue intensities.
#[derive(Debug, Clone, Copy, PartialEq, Eq, Structural)]
pub struct Rgb {
    pub r: u8,
    pub g: u8,
    pub b: u8,
}

pub open spec fn hex_value(c: char) -> Option<nat> {
    if '0' <= c && c <= '9' {
        Some(((c as int) - ('0' as int)) as nat)
    } else if 'a' <= c && c <= 'f' {
        Some(((c as int) - ('a' as int) + 10) as nat)
    } else if 'A' <= c && c <= 'F' {
        Some(((c as int) - ('A' as int) + 10) as nat)
    } else {
        None
    }
}

/// The byte that the two hex digits at `s[i]`, `s[i + 1]` spell.
pub open spec fn hex_byte(s: Seq<char>, i: int) -> nat {
    hex_value(s[i])->Some_0 * 16 + hex_value(s[i + 1])->Some_0
}

/// Whether `s` begins with six hex digits.
pub open spec fn starts_with_rgb(s: Seq<char>) -> bool {
    s.len() >= 6 && forall|i: int| 0 <= i < 6 ==> (#[trigger] hex_value(s[i])) is Some
}

/// The colour that the first six characters of `s` spell, if they are hex digits.
pub open spec fn rgb_prefix(s: Seq<char>) -> Option<Rgb> {
    if starts_with_rgb(s) {
        Some(
            Rgb {
                r: hex_byte(s, 0) as u8,
                g: hex_byte(s, 2) as u8,
                b: hex_byte(s, 4) as u8,
            },
        )
    } else {
        None
    }
}

/// Relies on `read_color::rgb`: it reads three pairs of hex digits from the
/// front of the characters, each pair a byte, high digit first.
#[verifier::external_body]
fn read_rgb(hex: &str) -> (r: Option<Rgb>)
    ensures
        r == rgb_prefix(hex@),
{
    read_color::rgb(&mut hex.chars()).map(|c| Rgb { r: c[0], g: c[1], b: c[2] })
}

/// A `#rrggbb` colour, as in a theme.
pub open spec fn color_of(text: Seq<char>) -> Option<Rgb> {
    if text.len() > 0 && text[0] == '#' {
        rgb_prefix(text.drop_first())
    } else {
        None
    }
}

pub fn parse_color(text: &str) -> (r: Result<Rgb, AppError>)
    ensures
        r is Ok <==> color_of(text@) is Some,
        r is Ok ==> Some(r->Ok_0) == color_of(text@),
        r is Err ==> r->Err_0.kind == ErrorKind::Config,
{
    let n = text.unicode_len();
    if n > 0 && text.get_char(0) == '#' {
        let rest = text.substring_char(1, n);
        assert(rest@ =~= text@.drop_first());
        return match read_rgb(rest) {
            Some(c) => Ok(c),
            None => {
                let mut message = String::from_str("Can't parse hex color ");
                message.append(text);
                Err(AppError::new(ErrorKind::Config, message))
            },
        };
    }
    let mut message = String::from_str("Can't parse color ");
    message.append(text);
    Err(AppError::new(ErrorKind::Config, message))
}

/// Column names and numbers are inverse to each other over the nineteen
/// columns, A to T without I.
pub proof fn lemma_column_name_number(col: nat, c: char)
    ensures
        1 <= col <= 19 ==> column_number(column_letter(col)) == col,
        1 <= col <= 19 ==> is_column_char(column_letter(col)) && column_letter(col) != 'I'
            && column_letter(col) <= 'T',
        is_column_char(c) && c != 'I' && c <= 'T' ==> column_letter(column_number(c)) == c
            && 1 <= column_number(c) <= 19,
{
}

} // verus!
