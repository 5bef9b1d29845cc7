//! Plain-text helpers: exact string equality, and parsing/rendering of
//! non-negative decimal integers (the external form of a shutdown timeout).
use vstd::prelude::*;

verus! {

/// Decimal digits admitted by the integer text form.
pub open spec fn is_dec_digit(c: char) -> bool {
    48 <= c as u32 && c as u32 <= 57
}

/// Numeric value of one decimal digit.
pub open spec fn digit_of(c: char) -> nat
    recommends
        is_dec_digit(c),
{
    ((c as u32) - 48) as nat
}

pub open spec fn all_dec_digits(s: Seq<char>) -> bool {
    forall|i: int| 0 <= i < s.len() ==> is_dec_digit(#[trigger] s[i])
}

/// The value denoted by a sequence of decimal digits (most significant first).
pub open spec fn digits_value(s: Seq<char>) -> nat
    decreases s.len(),
{
    if s.len() == 0 {
        0
    } else {
        digits_value(s.drop_last()) * 10 + digit_of(s.last())
    }
}

/// The digit region of an integer text: everything after one optional
/// leading `+` sign.
pub open spec fn dec_digits_of(s: Seq<char>) -> Seq<char> {
    if s.len() > 0 && s[0] == '+' {
        s.subrange(1, s.len() as int)
    } else {
        s
    }
}

/// A text denotes a non-negative decimal integer: an optional `+`,
/// then at least one digit and nothing else.
pub open spec fn is_dec_text(s: Seq<char>) -> bool {
    dec_digits_of(s).len() > 0 && all_dec_digits(dec_digits_of(s))
}

/// The value a valid integer text denotes.
pub open spec fn dec_text_value(s: Seq<char>) -> nat
    recommends
        is_dec_text(s),
{
    digits_value(dec_digits_of(s))
}

/// Values are accumulated exactly up to this bound and saturate at it;
/// every integer type this crate parses into is narrower.
pub const DEC_SATURATION: u128 = 0x1_0000_0000_0000_0000;

/// `dec_text_value`, saturated at `DEC_SATURATION`.
pub open spec fn dec_text_value_sat(s: Seq<char>) -> nat {
    if dec_text_value(s) > DEC_SATURATION as nat {
        DEC_SATURATION as nat
    } else {
        dec_text_value(s)
    }
}

/// The character of one decimal digit.
pub open spec fn char_of_digit(d: nat) -> char
    recommends
        d < 10,
{
    if d == 0 {
        '0'
    } else if d == 1 {
        '1'
    } else if d == 2 {
        '2'
    } else if d == 3 {
        '3'
    } else if d == 4 {
        '4'
    } else if d == 5 {
        '5'
    } else if d == 6 {
        '6'
    } else if d == 7 {
        '7'
    } else if d == 8 {
        '8'
    } else {
        '9'
    }
}

/// The canonical decimal text of a number: no sign, no leading zero
/// except for the number zero itself.
pub open spec fn dec_rep(n: nat) -> Seq<char>
    decreases n,
{
    if n < 10 {
        seq![char_of_digit(n)]
    } else {
        dec_rep(n / 10).push(char_of_digit(n % 10))
    }
}

/// Exact character-wise string equality.
pub fn str_eq(a: &str, b: &str) -> (r: bool)
    ensures
        r == (a@ == b@),
{
    let n = a.unicode_len();
    if n != b.unicode_len() {
        return false;
    }
    let mut i: usize = 0;
    while i < n
        invariant
            i <= n,
            n == a@.len(),
            n == b@.len(),
            forall|j: int| 0 <= j < i ==> a@[j] == b@[j],
        decreases n - i,
    {
        if a.get_char(i) != b.get_char(i) {
            return false;
        }
        i = i + 1;
    }
    proof {
        assert(a@ =~= b@);
    }
    true
}

/// Parses a non-negative decimal integer text (optional `+`, then digits),
/// saturating at `DEC_SATURATION`. Rejects everything else: empty text,
/// a sign without digits, any non-digit character.
pub fn parse_dec_value(s: &str) -> (r: Option<u128>)
    ensures
        r is Some <==> is_dec_text(s@),
        r matches Some(v) ==> v as nat == dec_text_value_sat(s@),
{
    let len = s.unicode_len();
    if len == 0 {
        return None;
    }
    let start: usize = if s.get_char(0) == '+' {
        1
    } else {
        0
    };
    proof {
        assert(dec_digits_of(s@) =~= s@.subrange(start as int, len as int));
    }
    if start == len {
        return None;
    }
    let mut value: u128 = 0;
    let mut i: usize = start;
    while i < len
        invariant
            start <= i <= len,
            len == s@.len(),
            dec_digits_of(s@) =~= s@.subrange(start as int, len as int),
            all_dec_digits(s@.subrange(start as int, i as int)),
            value <= DEC_SATURATION,
            value as nat == if digits_value(s@.subrange(start as int, i as int)) > (
            DEC_SATURATION as nat) {
                DEC_SATURATION as nat
            } else {
                digits_value(s@.subrange(start as int, i as int))
            },
        decreases len - i,
    {
        let c = s.get_char(i);
        let v = c as u32;
        if v < 48 || v > 57 {
            proof {
                assert(!is_dec_digit(s@.subrange(start as int, len as int)[i - start]));
            }
            return None;
        }
        let d = (v - 48) as u128;
        let grown = value * 10 + d;
        proof {
            let prefix = s@.subrange(start as int, i as int);
            let extended = s@.subrange(start as int, i as int + 1);
            assert(extended.drop_last() =~= prefix);
            assert(extended.last() == s@[i as int]);
        }
        value = if grown > DEC_SATURATION {
            DEC_SATURATION
        } else {
            grown
        };
        i = i + 1;
    }
    proof {
        assert(s@.subrange(start as int, i as int) =~= dec_digits_of(s@));
    }
    Some(value)
}

fn digit_str(d: u32) -> (r: &'static str)
    requires
        d < 10,
    ensures
        r@.len() == 1,
        r@[0] == char_of_digit(d as nat),
{
    proof {
        reveal_strlit("0");
        reveal_strlit("1");
        reveal_strlit("2");
        reveal_strlit("3");
        reveal_strlit("4");
        reveal_strlit("5");
        reveal_strlit("6");
        reveal_strlit("7");
        reveal_strlit("8");
        reveal_strlit("9");
    }
    if d == 0 {
        "0"
    } else if d == 1 {
        "1"
    } else if d == 2 {
        "2"
    } else if d == 3 {
        "3"
    } else if d == 4 {
        "4"
    } else if d == 5 {
        "5"
    } else if d == 6 {
        "6"
    } else if d == 7 {
        "7"
    } else if d == 8 {
        "8"
    } else {
        "9"
    }
}

/// The canonical decimal text of a number denotes that number: it is all
/// digits, at least one, and its value is the number itself. Rendering is
/// therefore an inverse of parsing.
pub proof fn lemma_dec_rep_value(n: nat)
    ensures
        dec_rep(n).len() >= 1,
        all_dec_digits(dec_rep(n)),
        digits_value(dec_rep(n)) == n,
    decreases n,
{
    if n < 10 {
        assert(dec_rep(n).drop_last() =~= Seq::<char>::empty());
        assert(digits_value(Seq::<char>::empty()) == 0);
        assert(digit_of(char_of_digit(n)) == n);
    } else {
        lemma_dec_rep_value(n / 10);
        let whole = dec_rep(n);
        assert(whole.drop_last() =~= dec_rep(n / 10));
        assert(whole.last() == char_of_digit(n % 10));
        assert(digit_of(char_of_digit(n % 10)) == n % 10);
        assert(n / 10 * 10 + n % 10 == n) by {
            vstd::arithmetic::div_mod::lemma_fundamental_div_mod(n as int, 10);
        }
        assert forall|i: int| 0 <= i < whole.len() implies is_dec_digit(#[trigger] whole[i]) by {
            if i < whole.len() - 1 {
                assert(whole[i] == dec_rep(n / 10)[i]);
            }
        }
    }
}

/// A canonical decimal text is a valid integer text and denotes the
/// number it renders: parsing what was rendered gives the value back.
pub proof fn lemma_dec_round_trip(n: nat)
    ensures
        is_dec_text(dec_rep(n)),
        dec_text_value(dec_rep(n)) == n,
{
    lemma_dec_rep_value(n);
    assert(is_dec_digit(dec_rep(n)[0]));
    assert(dec_rep(n)[0] != '+');
    assert(dec_digits_of(dec_rep(n)) == dec_rep(n));
}

/// Renders a number as its canonical decimal text.
pub fn u32_to_string(n: u32) -> (r: String)
    ensures
        r@ == dec_rep(n as nat),
    decreases n,
{
    if n < 10 {
        let r = digit_str(n).to_owned();
        proof {
            assert(r@ =~= dec_rep(n as nat));
        }
        r
    } else {
        let mut s = u32_to_string(n / 10);
        s.append(digit_str(n % 10));
        proof {
            assert(s@ =~= dec_rep(n as nat));
        }
        s
    }
}

} // verus!
