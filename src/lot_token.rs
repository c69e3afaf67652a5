//! A three-symbol token that packs an `(id, lot)` byte pair.
//!
//! The pair is packed into sixteen bits (`lot` high, `id` low), whitened by a
//! fixed XOR mask and written as three base-43 digits, least significant first.
use vstd::prelude::*;

verus! {

/// The fixed XOR mask applied to the packed pair.
pub const WHITENING_MASK: u32 = 0xE19A;

/// The symbol of digit value `d`: the ten digits, the 26 capital letters,
/// then `-`, `+`, `/`, `$`, `.`, `%` and the space.
pub open spec fn symbol_at(d: int) -> char {
    if d < 10 {
        ('0' as int + d) as char
    } else if d < 36 {
        ('A' as int + d - 10) as char
    } else if d == 36 {
        '-'
    } else if d == 37 {
        '+'
    } else if d == 38 {
        '/'
    } else if d == 39 {
        '$'
    } else if d == 40 {
        '.'
    } else if d == 41 {
        '%'
    } else {
        ' '
    }
}

/// The 43 token symbols; a symbol's position is its digit value.
pub open spec fn alphabet() -> Seq<char> {
    Seq::new(43, |d: int| symbol_at(d))
}

/// `c` with an ASCII lower-case letter turned into its upper-case form.
pub open spec fn ascii_upper(c: char) -> char {
    if 'a' <= c && c <= 'z' {
        ((c as u32) - 32) as char
    } else {
        c
    }
}

/// The position of `c` in the alphabet, or -1 when it is not a symbol.
pub open spec fn symbol_index(c: char) -> int {
    if '0' <= c && c <= '9' {
        c as int - '0' as int
    } else if 'A' <= c && c <= 'Z' {
        c as int - 'A' as int + 10
    } else if c == '-' {
        36
    } else if c == '+' {
        37
    } else if c == '/' {
        38
    } else if c == '$' {
        39
    } else if c == '.' {
        40
    } else if c == '%' {
        41
    } else if c == ' ' {
        42
    } else {
        -1
    }
}

/// The digit value that decoding gives `c`: letters count in either case.
pub open spec fn symbol_value(c: char) -> int {
    symbol_index(ascii_upper(c))
}

/// The packed and whitened value of a pair.
pub open spec fn whitened(id: u8, lot: u8) -> u32 {
    (((lot as u32) << 8u32) | (id as u32)) ^ WHITENING_MASK
}

/// The token of a pair: the whitened value in base 43, least significant digit first.
pub open spec fn encode_token(id: u8, lot: u8) -> Seq<char> {
    let v = whitened(id, lot) as int;
    seq![alphabet()[v % 43], alphabet()[(v / 43) % 43], alphabet()[(v / 1849) % 43]]
}

/// The pair that three digit values stand for.
pub open spec fn pair_of_digits(d0: int, d1: int, d2: int) -> (u8, u8) {
    let v = ((d0 + d1 * 43 + d2 * 1849) as u32) ^ WHITENING_MASK;
    ((v & 0xFF) as u8, ((v >> 8u32) & 0xFF) as u8)
}

/// What decoding a three-character text gives: `None` when a character is no symbol.
pub open spec fn decode_token(t: Seq<char>) -> Option<(u8, u8)> {
    if t.len() == 3 && symbol_value(t[0]) >= 0 && symbol_value(t[1]) >= 0 && symbol_value(t[2])
        >= 0 {
        Some(pair_of_digits(symbol_value(t[0]), symbol_value(t[1]), symbol_value(t[2])))
    } else {
        None
    }
}

/// `symbol_index` is exactly the position in the alphabet.
pub proof fn lemma_symbol_index_is_position(c: char)
    ensures
        symbol_index(c) >= 0 ==> symbol_index(c) < 43 && alphabet()[symbol_index(c)] == c,
        forall|i: int| 0 <= i < 43 ==> symbol_index(#[trigger] alphabet()[i]) == i,
{
}

/// The symbol of a digit value below 43.
fn symbol(d: u32) -> (c: char)
    requires
        d < 43,
    ensures
        c == symbol_at(d as int),
{
    if d < 10 {
        ((d as u8) + 48) as char
    } else if d < 36 {
        ((d as u8) + 55) as char
    } else if d == 36 {
        '-'
    } else if d == 37 {
        '+'
    } else if d == 38 {
        '/'
    } else if d == 39 {
        '$'
    } else if d == 40 {
        '.'
    } else if d == 41 {
        '%'
    } else {
        ' '
    }
}

/// Encodes a pair as its three-symbol token.
pub fn encode(id: u8, lot: u8) -> (r: [char; 3])
    ensures
        r@ == encode_token(id, lot),
        forall|i: int| 0 <= i < 3 ==> alphabet().contains(#[trigger] r@[i]),
{
    let val: u32 = (((lot as u32) << 8u32) | (id as u32)) ^ WHITENING_MASK;
    let out: [char; 3] = [
        symbol(val % 43),
        symbol((val / 43) % 43),
        symbol((val / 43 / 43) % 43),
    ];
    proof {
        let v = val as int;
        assert(v / 43 / 43 == v / 1849) by {
            vstd::arithmetic::div_mod::lemma_div_denominator(v, 43, 43);
        }
        assert(out@ =~= encode_token(id, lot));
        assert forall|i: int| 0 <= i < 3 implies alphabet().contains(#[trigger] out@[i]) by {
            let k = if i == 0 {
                v % 43
            } else if i == 1 {
                (v / 43) % 43
            } else {
                (v / 1849) % 43
            };
            assert(out@[i] == alphabet()[k]);
        }
    }
    out
}

fn to_ascii_upper(c: char) -> (r: char)
    ensures
        r == ascii_upper(c),
{
    if 'a' <= c && c <= 'z' {
        ((c as u8) - 32) as char
    } else {
        c
    }
}

/// The digit value of a character, its case ignored; `None` when it is no symbol.
fn symbol_digit(c: char) -> (r: Option<u32>)
    ensures
        r is None <==> symbol_value(c) < 0,
        r matches Some(d) ==> d as int == symbol_value(c) && d < 43,
{
    let u = to_ascii_upper(c);
    if '0' <= u && u <= '9' {
        Some((u as u32) - 48)
    } else if 'A' <= u && u <= 'Z' {
        Some((u as u32) - 55)
    } else if u == '-' {
        Some(36)
    } else if u == '+' {
        Some(37)
    } else if u == '/' {
        Some(38)
    } else if u == '$' {
        Some(39)
    } else if u == '.' {
        Some(40)
    } else if u == '%' {
        Some(41)
    } else if u == ' ' {
        Some(42)
    } else {
        None
    }
}

/// Decodes a token, letters in either case; `None` when a character is no symbol.
pub fn decode(chars: [char; 3]) -> (r: Option<(u8, u8)>)
    ensures
        r == decode_token(chars@),
        r is None <==> exists|i: int| 0 <= i < 3 && symbol_value(#[trigger] chars@[i]) < 0,
{
    let d0 = match symbol_digit(chars[0]) {
        Some(d) => d,
        None => return None,
    };
    let d1 = match symbol_digit(chars[1]) {
        Some(d) => d,
        None => return None,
    };
    let d2 = match symbol_digit(chars[2]) {
        Some(d) => d,
        None => return None,
    };
    let val: u32 = (d0 + d1 * 43 + d2 * 1849) ^ WHITENING_MASK;
    Some(((val & 0xFF) as u8, ((val >> 8u32) & 0xFF) as u8))
}

/// Why a typed token could not be read.
#[derive(Debug, Clone, Copy, PartialEq, Eq, Structural)]
pub enum TokenError {
    /// The text does not hold exactly three characters; it holds this many.
    WrongLength(usize),
    /// A character is not a token symbol.
    InvalidSymbol,
}

/// Reads a typed token: exactly three characters, letters in either case.
pub fn decode_text(input: &str) -> (r: Result<(u8, u8), TokenError>)
    ensures
        input@.len() != 3 ==> r == Err::<(u8, u8), TokenError>(
            TokenError::WrongLength(input@.len() as usize),
        ),
        input@.len() == 3 ==> r == match decode_token(input@) {
            Some(p) => Ok(p),
            None => Err(TokenError::InvalidSymbol),
        },
{
    let n = input.unicode_len();
    if n != 3 {
        return Err(TokenError::WrongLength(n));
    }
    let chars: [char; 3] = [input.get_char(0), input.get_char(1), input.get_char(2)];
    assert(chars@ =~= input@);
    match decode(chars) {
        Some(p) => Ok(p),
        None => Err(TokenError::InvalidSymbol),
    }
}

/// Decoding the token of a pair gives the pair back.
pub proof fn lemma_round_trip(id: u8, lot: u8)
    ensures
        decode_token(encode_token(id, lot)) == Some((id, lot)),
{
    let packed: u32 = ((lot as u32) << 8u32) | (id as u32);
    let w: u32 = packed ^ WHITENING_MASK;
    assert(packed < 65536 && w < 65536) by (bit_vector)
        requires
            packed == ((lot as u32) << 8u32) | (id as u32),
            w == packed ^ 0xE19Au32,
    ;
    let v = w as int;
    let d0 = v % 43;
    let d1 = (v / 43) % 43;
    let d2 = (v / 1849) % 43;
    assert(d0 + d1 * 43 + d2 * 1849 == v) by {
        vstd::arithmetic::div_mod::lemma_fundamental_div_mod(v, 43);
        vstd::arithmetic::div_mod::lemma_fundamental_div_mod(v / 43, 43);
        vstd::arithmetic::div_mod::lemma_div_denominator(v, 43, 43);
        assert(v / 1849 < 43);
        vstd::arithmetic::div_mod::lemma_small_mod((v / 1849) as nat, 43);
    }
    let t = encode_token(id, lot);
    assert forall|i: int| 0 <= i < 3 implies symbol_value(#[trigger] t[i]) == (if i == 0 {
        d0
    } else if i == 1 {
        d1
    } else {
        d2
    }) by {
        lemma_symbol_index_is_position(t[i]);
        let k = if i == 0 {
            d0
        } else if i == 1 {
            d1
        } else {
            d2
        };
        assert(ascii_upper(alphabet()[k]) == alphabet()[k]);
    }
    assert(symbol_value(t[0]) == d0);
    assert(symbol_value(t[1]) == d1);
    assert(symbol_value(t[2]) == d2);
    assert((w ^ 0xE19Au32) & 0xFF == id as u32 && ((w ^ 0xE19Au32) >> 8u32) & 0xFF == lot as u32)
        by (bit_vector)
        requires
            w == (((lot as u32) << 8u32) | (id as u32)) ^ 0xE19Au32,
    ;
}

/// Decoding does not depend on the case of the letters.
pub proof fn lemma_decode_ignores_case(a: Seq<char>, b: Seq<char>)
    requires
        a.len() == b.len(),
        forall|i: int| 0 <= i < a.len() ==> ascii_upper(#[trigger] a[i]) == ascii_upper(b[i]),
    ensures
        decode_token(a) == decode_token(b),
{
    if a.len() == 3 {
        assert(symbol_value(a[0]) == symbol_value(b[0]));
        assert(symbol_value(a[1]) == symbol_value(b[1]));
        assert(symbol_value(a[2]) == symbol_value(b[2]));
    }
}

} // verus!
