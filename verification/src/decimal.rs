//! Decimal numerals: how an integer is written out, and which integer a text denotes.

use vstd::prelude::*;
use vstd::string::*;

verus! {

/// Whether `c` is one of the ten ASCII digits.
pub open spec fn is_digit(c: char) -> bool {
    '0' <= c && c <= '9'
}

/// The number that the digit `c` stands for.
pub open spec fn digit_value(c: char) -> int {
    c as int - '0' as int
}

/// The digit that stands for `d`, where `0 <= d < 10`.
pub open spec fn digit_char(d: int) -> char {
    (d + '0' as int) as char
}

/// The numeral of a natural number: its decimal digits, most significant first,
/// without leading zeros; zero is written `0`.
pub open spec fn numeral(n: nat) -> Seq<char>
    decreases n,
{
    if n < 10 {
        seq![digit_char(n as int)]
    } else {
        numeral(n / 10).push(digit_char((n % 10) as int))
    }
}

/// The numeral of an integer: a negative one is written as a minus sign
/// followed by the numeral of its magnitude.
pub open spec fn signed_numeral(n: int) -> Seq<char> {
    if n < 0 {
        seq!['-'] + numeral((-n) as nat)
    } else {
        numeral(n as nat)
    }
}

/// The number that a run of digits denotes, most significant digit first.
/// The empty run denotes zero.
pub open spec fn digits_value(s: Seq<char>) -> int
    decreases s.len(),
{
    if s.len() == 0 {
        0
    } else {
        10 * digits_value(s.drop_last()) + digit_value(s.last())
    }
}

/// Whether every character of `s` is a digit.
pub open spec fn all_digits(s: Seq<char>) -> bool {
    forall|i: int| 0 <= i < s.len() ==> is_digit(#[trigger] s[i])
}

/// Whether `s` begins with a plus or a minus sign.
pub open spec fn has_sign(s: Seq<char>) -> bool {
    s.len() > 0 && (s[0] == '+' || s[0] == '-')
}

/// What is left of `s` once a leading sign, if there is one, is taken off.
pub open spec fn unsigned_part(s: Seq<char>) -> Seq<char> {
    if has_sign(s) {
        s.subrange(1, s.len() as int)
    } else {
        s
    }
}

/// The integer that `s` denotes, if `s` is the numeral of a 64-bit signed
/// integer: an optional `+` or `-`, then one digit or more and nothing else,
/// with a value from `i64::MIN` to `i64::MAX`. Leading zeros are allowed;
/// spaces are not.
pub open spec fn integer_of(s: Seq<char>) -> Option<int> {
    let body = unsigned_part(s);
    let magnitude = digits_value(body);
    let value = if has_sign(s) && s[0] == '-' {
        -magnitude
    } else {
        magnitude
    };
    if body.len() > 0 && all_digits(body) && i64::MIN <= value <= i64::MAX {
        Some(value)
    } else {
        None
    }
}

/// The value of a digit, or `None` for any other character.
fn digit_of(c: char) -> (r: Option<u8>)
    ensures
        r is Some <==> is_digit(c),
        r matches Some(d) ==> d as int == digit_value(c) && d < 10,
{
    if c >= '0' && c <= '9' {
        Some(((c as u32) - ('0' as u32)) as u8)
    } else {
        None
    }
}

/// The digit for `d` as a one-character text.
fn digit_text(d: u8) -> (s: &'static str)
    requires
        d < 10,
    ensures
        s@ == seq![digit_char(d as int)],
{
    proof {
        reveal_strlit("0");
        reveal_strlit("1");
        reveal_strlit("2");
        reveal_strlit("3");
        reveal_strlit("4");
        reveal_strlit("5");
        reveal_strlit("6");
        reveal_strlit("7");
        reveal_strlit("8");
        reveal_strlit("9");
    }
    let s = match d {
        0 => "0",
        1 => "1",
        2 => "2",
        3 => "3",
        4 => "4",
        5 => "5",
        6 => "6",
        7 => "7",
        8 => "8",
        _ => "9",
    };
    assert(s@ =~= seq![digit_char(d as int)]);
    s
}

/// Appends the numeral of `n` to `out`.
pub fn push_numeral(out: &mut String, n: u128)
    ensures
        final(out)@ == old(out)@ + numeral(n as nat),
    decreases n,
{
    if n >= 10 {
        push_numeral(out, n / 10);
    }
    out.append(digit_text((n % 10) as u8));
    assert(final(out)@ =~= old(out)@ + numeral(n as nat));
}

/// Appends the numeral of the integer `n` to `out`.
pub fn push_signed_numeral(out: &mut String, n: i128)
    ensures
        final(out)@ == old(out)@ + signed_numeral(n as int),
{
    if n < 0 {
        out.append("-");
        proof {
            reveal_strlit("-");
        }
        let magnitude: u128 = ((-(n + 1)) as u128) + 1;
        push_numeral(out, magnitude);
        assert(final(out)@ =~= old(out)@ + signed_numeral(n as int));
    } else {
        push_numeral(out, n as u128);
    }
}

/// The numeral of a natural number is a run of one digit or more that denotes
/// that number.
pub proof fn lemma_numeral_is_digits(n: nat)
    ensures
        numeral(n).len() > 0,
        all_digits(numeral(n)),
        digits_value(numeral(n)) == n,
    decreases n,
{
    let text = numeral(n);
    if n < 10 {
        assert(text.drop_last() =~= Seq::<char>::empty());
        assert(digits_value(text.drop_last()) == 0);
        assert(text.last() == digit_char(n as int));
    } else {
        lemma_numeral_is_digits(n / 10);
        assert(text.drop_last() =~= numeral(n / 10));
        assert(text.last() == digit_char((n % 10) as int));
    }
}

/// Reading undoes writing: the numeral of a 64-bit signed integer denotes
/// that integer.
pub proof fn lemma_numeral_denotes(n: int)
    requires
        i64::MIN <= n <= i64::MAX,
    ensures
        integer_of(signed_numeral(n)) == Some(n),
{
    if n < 0 {
        lemma_numeral_is_digits((-n) as nat);
        assert(unsigned_part(signed_numeral(n)) =~= numeral((-n) as nat));
    } else {
        lemma_numeral_is_digits(n as nat);
        assert(is_digit(numeral(n as nat)[0]));
    }
}

/// A run of digits denotes at least what any of its beginnings denotes.
pub proof fn lemma_digits_value_grows(s: Seq<char>, k: int)
    requires
        all_digits(s),
        0 <= k <= s.len(),
    ensures
        0 <= digits_value(s.take(k)) <= digits_value(s),
    decreases s.len() - k,
{
    if k == s.len() {
        assert(s.take(k) =~= s);
        lemma_digits_value_is_natural(s);
    } else {
        lemma_digits_value_grows(s, k + 1);
        assert(s.take(k + 1).drop_last() =~= s.take(k));
        assert(is_digit(s[k]));
        assert(s.take(k + 1).last() == s[k]);
        lemma_digits_value_is_natural(s.take(k));
    }
}

/// A run of digits denotes a natural number.
pub proof fn lemma_digits_value_is_natural(s: Seq<char>)
    requires
        all_digits(s),
    ensures
        0 <= digits_value(s),
    decreases s.len(),
{
    if s.len() > 0 {
        lemma_digits_value_is_natural(s.drop_last());
        assert(is_digit(s.last()));
    }
}

/// Reads `text` as the numeral of a 64-bit signed integer.
pub fn parse_integer(text: &str) -> (r: Option<i64>)
    ensures
        match r {
            Some(v) => integer_of(text@) == Some(v as int),
            None => integer_of(text@) is None,
        },
{
    let mut first: bool = true;
    let mut negative: bool = false;
    let mut any: bool = false;
    let mut magnitude: i128 = 0;
    for c in it: text.chars()
        invariant
            it.seq() == text@,
            first <==> it.index() == 0,
            negative <==> it.index() > 0 && text@[0] == '-',
            any <==> unsigned_part(text@.take(it.index() as int)).len() > 0,
            !first ==> has_sign(text@.take(it.index() as int)) == has_sign(text@),
            all_digits(unsigned_part(text@.take(it.index() as int))),
            magnitude == digits_value(unsigned_part(text@.take(it.index() as int))),
            0 <= magnitude <= 0x8000_0000_0000_0000,
    {
        let ghost k = it.index() as int;
        let ghost before = unsigned_part(text@.take(k));
        let ghost after = unsigned_part(text@.take(k + 1));
        if first && (c == '+' || c == '-') {
            negative = c == '-';
            assert(after =~= Seq::<char>::empty());
        } else {
            assert(after =~= before.push(c));
            assert(after.drop_last() =~= before);
            match digit_of(c) {
                None => {
                    proof {
                        let body = unsigned_part(text@);
                        let j = if has_sign(text@) { k - 1 } else { k };
                        assert(body[j] == c);
                    }
                    return None;
                },
                Some(d) => {
                    magnitude = magnitude * 10 + d as i128;
                    any = true;
                    if magnitude > 0x8000_0000_0000_0000 {
                        proof {
                            let body = unsigned_part(text@);
                            let j = if has_sign(text@) { k } else { k + 1 };
                            if all_digits(body) {
                                assert(body.take(j) =~= after);
                                lemma_digits_value_grows(body, j);
                            }
                        }
                        return None;
                    }
                },
            }
        }
        first = false;
    }
    assert(text@.take(text@.len() as int) =~= text@);
    if !any {
        return None;
    }
    let value: i128 = if negative { -magnitude } else { magnitude };
    if value > 0x7fff_ffff_ffff_ffff {
        return None;
    }
    Some(value as i64)
}

} // verus!
