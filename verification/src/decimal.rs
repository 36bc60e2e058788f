use vstd::prelude::*;
use vstd::string::*;

verus! {

/// The character of a decimal digit `d` (`0 <= d < 10`).
pub open spec fn digit_char(d: int) -> char {
    (d + 48) as char
}

/// Whether `c` is an ASCII decimal digit.
pub open spec fn is_digit(c: char) -> bool {
    '0' <= c && c <= '9'
}

/// The value of the decimal digit `c`.
pub open spec fn digit_value(c: char) -> int {
    c as int - 48
}

/// The shortest decimal representation of `n`, as `to_string` writes it.
pub open spec fn decimal(n: nat) -> Seq<char>
    decreases n,
{
    if n < 10 {
        seq![digit_char(n as int)]
    } else {
        decimal(n / 10).push(digit_char((n % 10) as int))
    }
}

/// Whether every character of `s` is a decimal digit.
pub open spec fn all_digits(s: Seq<char>) -> bool {
    forall|i: int| 0 <= i < s.len() ==> is_digit(#[trigger] s[i])
}

/// The value of a string of decimal digits, most significant first.
pub open spec fn digits_value(s: Seq<char>) -> int
    decreases s.len(),
{
    if s.len() == 0 {
        0
    } else {
        digits_value(s.drop_last()) * 10 + digit_value(s.last())
    }
}

/// The digits that an unsigned integer's decimal parse reads: the text
/// without one leading `+`, if there is one.
pub open spec fn unsigned_digits(s: Seq<char>) -> Seq<char> {
    if s.len() > 0 && s[0] == '+' {
        s.drop_first()
    } else {
        s
    }
}

/// What parsing `s` as a `u16` gives: an optional `+` and then at least
/// one decimal digit, with a value that fits in 16 bits.
pub open spec fn parse_u16_spec(s: Seq<char>) -> Option<u16> {
    let digits = unsigned_digits(s);
    if digits.len() > 0 && all_digits(digits) && digits_value(digits) <= u16::MAX {
        Some(digits_value(digits) as u16)
    } else {
        None
    }
}

/// The one-character string of the digit `d`.
fn digit_str(d: u8) -> (r: &'static str)
    requires
        d < 10,
    ensures
        r@ == seq![digit_char(d as int)],
{
    proof {
        reveal_strlit("0");
        reveal_strlit("1");
        reveal_strlit("2");
        reveal_strlit("3");
        reveal_strlit("4");
        reveal_strlit("5");
        reveal_strlit("6");
        reveal_strlit("7");
        reveal_strlit("8");
        reveal_strlit("9");
    }
    if d == 0 {
        "0"
    } else if d == 1 {
        "1"
    } else if d == 2 {
        "2"
    } else if d == 3 {
        "3"
    } else if d == 4 {
        "4"
    } else if d == 5 {
        "5"
    } else if d == 6 {
        "6"
    } else if d == 7 {
        "7"
    } else if d == 8 {
        "8"
    } else {
        "9"
    }
}

/// The decimal text of a byte, as `u8::to_string` writes it.
pub fn u8_to_decimal(n: u8) -> (r: String)
    ensures
        r@ == decimal(n as nat),
{
    let mut r = String::new();
    if n >= 100 {
        r.append(digit_str(n / 100));
        r.append(digit_str((n / 10) % 10));
        r.append(digit_str(n % 10));
        proof {
            let m = n as nat;
            assert(decimal(m / 100) == seq![digit_char((m / 100) as int)]);
            assert((m / 10) / 10 == m / 100);
            assert(decimal(m / 10) == decimal(m / 100).push(digit_char(((m / 10) % 10) as int)));
            assert(r@ =~= decimal(m));
        }
    } else if n >= 10 {
        r.append(digit_str(n / 10));
        r.append(digit_str(n % 10));
        proof {
            let m = n as nat;
            assert(decimal(m / 10) == seq![digit_char((m / 10) as int)]);
            assert(r@ =~= decimal(m));
        }
    } else {
        r.append(digit_str(n));
        proof {
            assert(r@ =~= decimal(n as nat));
        }
    }
    r
}


/// Appending a digit to a string of digits multiplies its value by ten and
/// adds the digit.
proof fn lemma_digits_value_push(s: Seq<char>, c: char)
    ensures
        digits_value(s.push(c)) == digits_value(s) * 10 + digit_value(c),
{
    assert(s.push(c).drop_last() =~= s);
}

/// Parses a `u16` from decimal text as `str::parse::<u16>` does: an optional
/// leading `+`, then one or more ASCII digits whose value fits in 16 bits.
pub fn parse_u16(s: &str) -> (r: Option<u16>)
    ensures
        r == parse_u16_spec(s@),
{
    let len = s.unicode_len();
    let mut start: usize = 0;
    if len > 0 && s.get_char(0) == '+' {
        start = 1;
    }
    let ghost digits = unsigned_digits(s@);
    assert(digits =~= s@.subrange(start as int, len as int));
    if start == len {
        return None;
    }
    let mut value: u32 = 0;
    let mut overflow = false;
    let mut i = start;
    while i < len
        invariant
            len == s@.len(),
            start <= i <= len,
            digits =~= s@.subrange(start as int, len as int),
            digits == unsigned_digits(s@),
            all_digits(s@.subrange(start as int, i as int)),
            !overflow ==> value == digits_value(s@.subrange(start as int, i as int)),
            !overflow ==> value <= u16::MAX,
            overflow ==> digits_value(s@.subrange(start as int, i as int)) > u16::MAX,
        decreases len - i,
    {
        let c = s.get_char(i);
        let ghost prefix = s@.subrange(start as int, i as int);
        assert(s@.subrange(start as int, i + 1) =~= prefix.push(c));
        proof {
            lemma_digits_value_push(prefix, c);
        }
        if !('0' <= c && c <= '9') {
            assert(digits[i - start] == c);
            return None;
        }
        let d = (c as u32) - 48;
        if !overflow {
            value = value * 10 + d;
            if value > 65535 {
                overflow = true;
            }
        }
        i = i + 1;
    }
    assert(s@.subrange(start as int, len as int) =~= digits);
    if overflow {
        None
    } else {
        Some(value as u16)
    }
}


/// The digit characters are the digits `0` to `9`, read back as their value.
proof fn lemma_digit_char(d: int)
    requires
        0 <= d < 10,
    ensures
        is_digit(digit_char(d)),
        digit_value(digit_char(d)) == d,
        digit_char(d) != '+',
{
}

/// The decimal text of `n` is a nonempty string of digits whose value is `n`.
proof fn lemma_decimal_digits(n: nat)
    ensures
        decimal(n).len() > 0,
        all_digits(decimal(n)),
        digits_value(decimal(n)) == n,
        decimal(n)[0] != '+',
    decreases n,
{
    if n < 10 {
        lemma_digit_char(n as int);
        assert(decimal(n).drop_last() =~= Seq::<char>::empty());
        assert(digits_value(Seq::<char>::empty()) == 0);
        assert(decimal(n).last() == digit_char(n as int));
    } else {
        lemma_decimal_digits(n / 10);
        lemma_digit_char((n % 10) as int);
        let prefix = decimal(n / 10);
        lemma_digits_value_push(prefix, digit_char((n % 10) as int));
        assert(decimal(n) == prefix.push(digit_char((n % 10) as int)));
        assert((n / 10) * 10 + n % 10 == n);
        assert forall|i: int| 0 <= i < decimal(n).len() implies is_digit(#[trigger] decimal(n)[i]) by {
            if i < prefix.len() {
                assert(decimal(n)[i] == prefix[i]);
            }
        }
    }
}

/// The decimal text of `n` is its shortest string of digits: every
/// character a digit, the digits worth `n`, no leading zero (but for `0`
/// itself), and one digit for each power of ten up to `n`.
pub proof fn law_decimal_is_shortest_digits(n: nat)
    ensures
        all_digits(decimal(n)),
        digits_value(decimal(n)) == n,
        decimal(n).len() >= 1,
        n > 0 ==> decimal(n)[0] != '0',
        n < 10 ==> decimal(n).len() == 1,
        10 <= n < 100 ==> decimal(n).len() == 2,
        100 <= n < 1000 ==> decimal(n).len() == 3,
    decreases n,
{
    lemma_decimal_digits(n);
    if n >= 10 {
        law_decimal_is_shortest_digits(n / 10);
        assert(decimal(n)[0] == decimal(n / 10)[0]);
    } else {
        lemma_digit_char(n as int);
    }
}

/// Parsing reads back what formatting writes: the decimal text of any
/// number that fits in 16 bits parses as a `u16` to that number.
pub proof fn law_parse_u16_reads_decimal(n: u16)
    ensures
        parse_u16_spec(decimal(n as nat)) == Some(n),
{
    lemma_decimal_digits(n as nat);
}

} // verus!
