//! Character-level rendering primitives: decimal digits of integers, a
//! fixed-point `Decimal` carrier for fractional request fields, and JSON
//! string escaping. Every exec function is proved to append exactly the
//! character sequence its spec function describes.

use vstd::prelude::*;
use vstd::string::StrSliceExecFns;

verus! {

/// Relies on `String::push`: appends exactly one character to the string.
#[verifier::external_body]
pub(crate) fn push_char(s: &mut String, c: char)
    ensures
        final(s)@ == old(s)@.push(c),
{
    s.push(c)
}

/// One decimal digit as a character; meaningful for `d < 10`.
pub open spec fn digit_char(d: nat) -> char {
    if d == 0 {
        '0'
    } else if d == 1 {
        '1'
    } else if d == 2 {
        '2'
    } else if d == 3 {
        '3'
    } else if d == 4 {
        '4'
    } else if d == 5 {
        '5'
    } else if d == 6 {
        '6'
    } else if d == 7 {
        '7'
    } else if d == 8 {
        '8'
    } else {
        '9'
    }
}

/// One hexadecimal digit as a lower-case character; meaningful for `d < 16`.
pub open spec fn hex_char(d: nat) -> char {
    if d < 10 {
        digit_char(d)
    } else if d == 10 {
        'a'
    } else if d == 11 {
        'b'
    } else if d == 12 {
        'c'
    } else if d == 13 {
        'd'
    } else if d == 14 {
        'e'
    } else {
        'f'
    }
}

/// The decimal digits of `n`, most significant first, no sign, no leading
/// zeros (except for `n == 0`, rendered as "0").
pub open spec fn dec_digits(n: nat) -> Seq<char>
    decreases n,
{
    if n < 10 {
        seq![digit_char(n)]
    } else {
        dec_digits(n / 10).push(digit_char(n % 10))
    }
}

/// The decimal rendering of a signed integer: a minus sign for negative
/// values, then the digits of the magnitude.
pub open spec fn int_digits(i: int) -> Seq<char> {
    if i < 0 {
        seq!['-'] + dec_digits((-i) as nat)
    } else {
        dec_digits(i as nat)
    }
}

fn digit_to_char(d: u64) -> (c: char)
    requires
        d < 10,
    ensures
        c == digit_char(d as nat),
{
    if d == 0 {
        '0'
    } else if d == 1 {
        '1'
    } else if d == 2 {
        '2'
    } else if d == 3 {
        '3'
    } else if d == 4 {
        '4'
    } else if d == 5 {
        '5'
    } else if d == 6 {
        '6'
    } else if d == 7 {
        '7'
    } else if d == 8 {
        '8'
    } else {
        '9'
    }
}

fn hex_to_char(d: u64) -> (c: char)
    requires
        d < 16,
    ensures
        c == hex_char(d as nat),
{
    if d < 10 {
        digit_to_char(d)
    } else if d == 10 {
        'a'
    } else if d == 11 {
        'b'
    } else if d == 12 {
        'c'
    } else if d == 13 {
        'd'
    } else if d == 14 {
        'e'
    } else {
        'f'
    }
}

/// Appends the decimal digits of `n` to `s`.
pub fn push_u64(s: &mut String, n: u64)
    ensures
        final(s)@ == old(s)@ + dec_digits(n as nat),
    decreases n,
{
    if n < 10 {
        push_char(s, digit_to_char(n));
        proof {
            assert(old(s)@.push(digit_char(n as nat)) =~= old(s)@ + dec_digits(n as nat));
        }
    } else {
        push_u64(s, n / 10);
        push_char(s, digit_to_char(n % 10));
        proof {
            assert((old(s)@ + dec_digits((n / 10) as nat)).push(digit_char((n % 10) as nat))
                =~= old(s)@ + dec_digits(n as nat));
        }
    }
}

/// Appends the decimal rendering of `n`, sign included, to `s`.
pub fn push_i64(s: &mut String, n: i64)
    ensures
        final(s)@ == old(s)@ + int_digits(n as int),
{
    if n < 0 {
        push_char(s, '-');
        let m: u64 = if n == i64::MIN {
            9223372036854775808u64
        } else {
            (-n) as u64
        };
        assert(m as nat == (-(n as int)) as nat);
        push_u64(s, m);
        proof {
            assert(old(s)@.push('-') + dec_digits(m as nat) =~= old(s)@ + int_digits(n as int));
        }
    } else {
        push_u64(s, n as u64);
    }
}

/// A decimal number held in thousandths, so that fractional request fields
/// such as `temperature` or `speed` can be carried and rendered exactly
/// without floating point. `Decimal { milli: 1500 }` stands for `1.5`.
#[derive(Clone, Copy, Debug, PartialEq, Eq, Structural)]
pub struct Decimal {
    pub milli: i64,
}

impl Decimal {
    /// A decimal from a count of thousandths.
    pub fn from_milli(milli: i64) -> (d: Decimal)
        ensures
            d.milli == milli,
    {
        Decimal { milli }
    }

    /// A decimal from a whole number.
    pub fn from_whole(units: i64) -> (d: Decimal)
        requires
            -9223372036854775 <= units <= 9223372036854775,
        ensures
            d.milli == units * 1000,
    {
        Decimal { milli: units * 1000 }
    }
}

/// The fractional digits of `f` thousandths (meaningful for `f < 1000`):
/// trailing zeros trimmed, always at least one digit.
pub open spec fn frac_digits(f: nat) -> Seq<char> {
    if f == 0 {
        seq!['0']
    } else if f % 100 == 0 {
        seq![digit_char(f / 100)]
    } else if f % 10 == 0 {
        seq![digit_char(f / 100), digit_char((f / 10) % 10)]
    } else {
        seq![digit_char(f / 100), digit_char((f / 10) % 10), digit_char(f % 10)]
    }
}

/// The JSON number rendering of a `Decimal`: optional sign, whole part,
/// a decimal point, then the fraction with trailing zeros trimmed. The
/// decimal point is always present, so `1` renders as `1.0`.
pub open spec fn decimal_digits(d: Decimal) -> Seq<char> {
    let m = d.milli as int;
    let a = if m < 0 { -m } else { m };
    let sign: Seq<char> = if m < 0 { seq!['-'] } else { Seq::empty() };
    sign + dec_digits((a / 1000) as nat) + seq!['.'] + frac_digits((a % 1000) as nat)
}

/// Appends the JSON number rendering of `d` to `s`.
pub fn push_decimal(s: &mut String, d: Decimal)
    ensures
        final(s)@ == old(s)@ + decimal_digits(d),
{
    let m = d.milli;
    if m < 0 {
        push_char(s, '-');
    }
    let a: i128 = if m < 0 {
        -(m as i128)
    } else {
        m as i128
    };
    let units: u64 = (a / 1000) as u64;
    let frac: u64 = (a % 1000) as u64;
    assert(units as nat == ((if m < 0 { -(m as int) } else { m as int }) / 1000) as nat);
    assert(frac as nat == ((if m < 0 { -(m as int) } else { m as int }) % 1000) as nat);
    assert(frac < 1000);
    push_u64(s, units);
    push_char(s, '.');
    let ghost mid = s@;
    if frac == 0 {
        push_char(s, '0');
        proof {
            assert(mid.push('0') =~= mid + frac_digits(frac as nat));
        }
    } else if frac % 100 == 0 {
        push_char(s, digit_to_char(frac / 100));
        proof {
            assert(mid.push(digit_char((frac / 100) as nat)) =~= mid + frac_digits(frac as nat));
        }
    } else if frac % 10 == 0 {
        push_char(s, digit_to_char(frac / 100));
        push_char(s, digit_to_char((frac / 10) % 10));
        proof {
            assert(mid.push(digit_char((frac / 100) as nat)).push(
                digit_char(((frac / 10) % 10) as nat)) =~= mid + frac_digits(frac as nat));
        }
    } else {
        push_char(s, digit_to_char(frac / 100));
        push_char(s, digit_to_char((frac / 10) % 10));
        push_char(s, digit_to_char(frac % 10));
        proof {
            assert(mid.push(digit_char((frac / 100) as nat)).push(
                digit_char(((frac / 10) % 10) as nat)).push(digit_char((frac % 10) as nat))
                =~= mid + frac_digits(frac as nat));
        }
    }
    proof {
        assert(final(s)@ =~= old(s)@ + decimal_digits(d));
    }
}

/// The JSON escape of one character: the two-character escapes for quote,
/// backslash, newline, carriage return and tab; a `\u00XX` escape for any
/// other control character; the character itself otherwise.
pub open spec fn esc_char(c: char) -> Seq<char> {
    if c == '"' {
        seq!['\\', '"']
    } else if c == '\\' {
        seq!['\\', '\\']
    } else if c == '\n' {
        seq!['\\', 'n']
    } else if c == '\r' {
        seq!['\\', 'r']
    } else if c == '\t' {
        seq!['\\', 't']
    } else if (c as u32) < 32 {
        seq!['\\', 'u', '0', '0', hex_char(((c as u32) / 16) as nat), hex_char(
            ((c as u32) % 16) as nat,
        )]
    } else {
        seq![c]
    }
}

/// The JSON escape of a whole string, character by character.
pub open spec fn esc_str(s: Seq<char>) -> Seq<char>
    decreases s.len(),
{
    if s.len() == 0 {
        Seq::empty()
    } else {
        esc_char(s[0]) + esc_str(s.drop_first())
    }
}

/// Escaping a string extended by one character appends that character's
/// escape to the escaping of the string.
pub proof fn lemma_esc_str_push(s: Seq<char>, c: char)
    ensures
        esc_str(s.push(c)) == esc_str(s) + esc_char(c),
    decreases s.len(),
{
    if s.len() == 0 {
        assert(s.push(c).drop_first() =~= Seq::<char>::empty());
        assert(s.push(c)[0] == c);
        assert(esc_str(Seq::<char>::empty()) == Seq::<char>::empty());
        assert(esc_str(s.push(c)) == esc_char(c) + esc_str(s.push(c).drop_first()));
        assert(esc_str(s.push(c)) =~= esc_str(s) + esc_char(c));
    } else {
        assert(s.push(c).len() == s.len() + 1);
        assert(s.push(c)[0] == s[0]);
        assert(s.push(c).drop_first() =~= s.drop_first().push(c));
        lemma_esc_str_push(s.drop_first(), c);
        assert(esc_str(s.push(c)) == esc_char(s[0]) + esc_str(s.drop_first().push(c)));
        assert(esc_str(s.push(c)) =~= esc_str(s) + esc_char(c));
    }
}

fn push_esc_char(out: &mut String, c: char)
    ensures
        final(out)@ == old(out)@ + esc_char(c),
{
    if c == '"' {
        push_char(out, '\\');
        push_char(out, '"');
        proof {
            assert(old(out)@.push('\\').push('"') =~= old(out)@ + esc_char(c));
        }
    } else if c == '\\' {
        push_char(out, '\\');
        push_char(out, '\\');
        proof {
            assert(old(out)@.push('\\').push('\\') =~= old(out)@ + esc_char(c));
        }
    } else if c == '\n' {
        push_char(out, '\\');
        push_char(out, 'n');
        proof {
            assert(old(out)@.push('\\').push('n') =~= old(out)@ + esc_char(c));
        }
    } else if c == '\r' {
        push_char(out, '\\');
        push_char(out, 'r');
        proof {
            assert(old(out)@.push('\\').push('r') =~= old(out)@ + esc_char(c));
        }
    } else if c == '\t' {
        push_char(out, '\\');
        push_char(out, 't');
        proof {
            assert(old(out)@.push('\\').push('t') =~= old(out)@ + esc_char(c));
        }
    } else if (c as u32) < 32 {
        let v: u32 = c as u32;
        push_char(out, '\\');
        push_char(out, 'u');
        push_char(out, '0');
        push_char(out, '0');
        push_char(out, hex_to_char((v / 16) as u64));
        push_char(out, hex_to_char((v % 16) as u64));
        proof {
            assert(old(out)@.push('\\').push('u').push('0').push('0').push(
                hex_char(((c as u32) / 16) as nat)).push(hex_char(((c as u32) % 16) as nat))
                =~= old(out)@ + esc_char(c));
        }
    } else {
        push_char(out, c);
        proof {
            assert(old(out)@.push(c) =~= old(out)@ + esc_char(c));
        }
    }
}

/// Appends the JSON escape of `s` to `out`.
pub fn push_json_escaped(out: &mut String, s: &str)
    ensures
        final(out)@ == old(out)@ + esc_str(s@),
{
    let n = s.unicode_len();
    let mut i: usize = 0;
    while i < n
        invariant
            n == s@.len(),
            i <= n,
            out@ == old(out)@ + esc_str(s@.take(i as int)),
        decreases n - i,
    {
        let c = s.get_char(i);
        push_esc_char(out, c);
        proof {
            assert(s@.take(i as int + 1) =~= s@.take(i as int).push(s@[i as int]));
            lemma_esc_str_push(s@.take(i as int), s@[i as int]);
            assert(out@ =~= old(out)@ + esc_str(s@.take(i as int + 1)));
        }
        i += 1;
    }
    proof {
        assert(s@.take(n as int) =~= s@);
    }
}

} // verus!
