//! Byte values typed into a form field.
use vstd::prelude::*;

verus! {

/// Why a field does not hold a byte value.
#[derive(Debug, Clone, Copy, PartialEq, Eq, Structural)]
pub enum FieldError {
    /// Not an unsigned 32-bit decimal number.
    Malformed,
    /// A number above 255.
    OutOfRange,
}

/// The value of a string of decimal digits.
pub open spec fn digits_value(t: Seq<char>) -> nat
    decreases t.len(),
{
    if t.len() == 0 {
        0
    } else {
        10 * digits_value(t.drop_last()) + ((t.last() as int - '0' as int) as nat)
    }
}

/// Every character of `t` is a decimal digit.
pub open spec fn all_digits(t: Seq<char>) -> bool {
    forall|i: int| 0 <= i < t.len() ==> '0' <= #[trigger] t[i] && t[i] <= '9'
}

/// `t` without one leading plus sign.
pub open spec fn unsigned_part(t: Seq<char>) -> Seq<char> {
    if t.len() > 0 && t[0] == '+' {
        t.drop_first()
    } else {
        t
    }
}

/// What a field's text gives: an optional `+` and at least one digit, a value that fits
/// 32 bits, and then at most 255.
pub open spec fn byte_field(t: Seq<char>) -> Result<u8, FieldError> {
    let d = unsigned_part(t);
    if d.len() == 0 || !all_digits(d) || digits_value(d) > u32::MAX {
        Err(FieldError::Malformed)
    } else if digits_value(d) > 255 {
        Err(FieldError::OutOfRange)
    } else {
        Ok(digits_value(d) as u8)
    }
}

/// Appending digits never lowers the value.
proof fn lemma_prefix_value(t: Seq<char>, i: int)
    requires
        0 <= i <= t.len(),
        all_digits(t),
    ensures
        digits_value(t.take(i)) <= digits_value(t),
    decreases t.len() - i,
{
    if i < t.len() {
        lemma_prefix_value(t, i + 1);
        let p = t.take(i + 1);
        assert(p.drop_last() =~= t.take(i));
        assert('0' <= t[i] <= '9');
    } else {
        assert(t.take(i) =~= t);
    }
}

/// A character with the Unicode `White_Space` property.
pub open spec fn is_white_space(c: char) -> bool {
    ||| '\u{9}' <= c <= '\u{d}'
    ||| c == ' '
    ||| c == '\u{85}'
    ||| c == '\u{a0}'
    ||| c == '\u{1680}'
    ||| '\u{2000}' <= c <= '\u{200a}'
    ||| c == '\u{2028}'
    ||| c == '\u{2029}'
    ||| c == '\u{202f}'
    ||| c == '\u{205f}'
    ||| c == '\u{3000}'
}

/// `s` without its leading whitespace.
pub open spec fn trim_start(s: Seq<char>) -> Seq<char>
    decreases s.len(),
{
    if s.len() > 0 && is_white_space(s[0]) {
        trim_start(s.drop_first())
    } else {
        s
    }
}

/// `s` without its trailing whitespace.
pub open spec fn trim_end(s: Seq<char>) -> Seq<char>
    decreases s.len(),
{
    if s.len() > 0 && is_white_space(s.last()) {
        trim_end(s.drop_last())
    } else {
        s
    }
}

/// `s` without its leading and trailing whitespace.
pub open spec fn trimmed(s: Seq<char>) -> Seq<char> {
    trim_end(trim_start(s))
}

/// Relies on `str::trim`: the text without its leading and trailing characters of the
/// Unicode `White_Space` property.
#[verifier::external_body]
fn trim_text(s: &str) -> (r: &str)
    ensures
        r@ == trimmed(s@),
{
    s.trim()
}

/// Reads a byte value from text that holds no surrounding whitespace.
pub fn parse_byte_text(t: &str) -> (r: Result<u8, FieldError>)
    ensures
        r == byte_field(t@),
{
    let n = t.unicode_len();
    let mut start: usize = 0;
    if n > 0 && t.get_char(0) == '+' {
        start = 1;
    }
    let ghost d = unsigned_part(t@);
    assert(d =~= t@.skip(start as int));
    if start == n {
        return Err(FieldError::Malformed);
    }
    let mut value: u64 = 0;
    let mut i: usize = start;
    while i < n
        invariant
            n == t@.len(),
            d == t@.skip(start as int),
            d == unsigned_part(t@),
            start <= i <= n,
            start < n,
            all_digits(d.take(i - start)),
            value as nat == digits_value(d.take(i - start)),
            value <= u32::MAX,
        decreases n - i,
    {
        let c = t.get_char(i);
        if c < '0' || c > '9' {
            assert(d[i - start] == c);
            assert(!all_digits(d));
            return Err(FieldError::Malformed);
        }
        let digit = (c as u32 - 48) as u64;
        let ghost k = i - start;
        assert(d.take(k + 1).drop_last() =~= d.take(k));
        assert(all_digits(d.take(k + 1)));
        value = value * 10 + digit;
        if value > 0xFFFF_FFFF {
            proof {
                if all_digits(d) {
                    lemma_prefix_value(d, k + 1);
                }
            }
            return Err(FieldError::Malformed);
        }
        i = i + 1;
    }
    assert(d.take(n - start) =~= d);
    if value > 255 {
        Err(FieldError::OutOfRange)
    } else {
        Ok(value as u8)
    }
}

/// Reads a byte value from a form field, ignoring surrounding whitespace.
pub fn parse_byte_field(s: &str) -> (r: Result<u8, FieldError>)
    ensures
        r == byte_field(trimmed(s@)),
{
    parse_byte_text(trim_text(s))
}

} // verus!
