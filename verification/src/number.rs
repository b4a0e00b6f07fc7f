use vstd::prelude::*;
use vstd::string::StrSliceExecFns;

verus! {

/// Whether `c` is one of the ASCII digits `0`..`9`.
pub open spec fn is_digit(c: char) -> bool {
    48 <= (c as u32) <= 57
}

/// The value of the ASCII digit `c`.
pub open spec fn digit_value(c: char) -> nat {
    ((c as u32) - 48) as nat
}

/// The ASCII digit for `d`, where `d < 10`.
pub open spec fn digit_char(d: nat) -> char {
    ((d + 48) as u32) as char
}

/// The value of the digits `s`, read in base ten.
pub open spec fn digits_value(s: Seq<char>) -> nat
    decreases s.len(),
{
    if s.len() == 0 {
        0
    } else {
        digits_value(s.drop_last()) * 10 + digit_value(s.last())
    }
}

/// `s` without the one `+` sign that may lead it.
pub open spec fn unsigned_digits(s: Seq<char>) -> Seq<char> {
    if s.len() > 0 && s[0] == '+' {
        s.drop_first()
    } else {
        s
    }
}

/// What `u64::from_str` gives for `s`: an optional `+`, then one or more
/// ASCII digits whose value fits in a `u64`; `None` for any other string.
pub open spec fn parsed_u64(s: Seq<char>) -> Option<u64> {
    let digits = unsigned_digits(s);
    if digits.len() > 0 && (forall|i: int| 0 <= i < digits.len() ==> #[trigger] is_digit(digits[i]))
        && digits_value(digits) <= u64::MAX {
        Some(digits_value(digits) as u64)
    } else {
        None
    }
}

/// The base-ten numeral of `n`, without leading zeros, as `u64`'s
/// `Display` writes it.
pub open spec fn decimal(n: nat) -> Seq<char>
    decreases n,
{
    if n < 10 {
        seq![digit_char(n)]
    } else {
        decimal(n / 10).push(digit_char(n % 10))
    }
}

proof fn lemma_digit_char(d: nat)
    requires
        d < 10,
    ensures
        is_digit(digit_char(d)),
        digit_value(digit_char(d)) == d,
        digit_char(d) != '+',
{
}

proof fn lemma_decimal_digits(n: nat)
    ensures
        decimal(n).len() > 0,
        forall|i: int| 0 <= i < decimal(n).len() ==> #[trigger] is_digit(decimal(n)[i]),
        digits_value(decimal(n)) == n,
    decreases n,
{
    if n < 10 {
        lemma_digit_char(n);
        assert(decimal(n).drop_last() =~= Seq::<char>::empty());
        assert(digits_value(Seq::<char>::empty()) == 0);
        assert(digits_value(decimal(n)) == digits_value(decimal(n).drop_last()) * 10
            + digit_value(decimal(n).last()));
    } else {
        lemma_decimal_digits(n / 10);
        lemma_digit_char(n % 10);
        assert(decimal(n).drop_last() =~= decimal(n / 10));
        assert(digits_value(decimal(n)) == digits_value(decimal(n / 10)) * 10 + digit_value(
            decimal(n).last(),
        ));
        assert(n == (n / 10) * 10 + n % 10) by (nonlinear_arith);
    }
}

/// Reading back the numeral that `decimal_string` writes gives the number:
/// `parse_u64` undoes `decimal_string` for every `u64`.
pub proof fn lemma_parse_decimal_roundtrip(n: u64)
    ensures
        parsed_u64(decimal(n as nat)) == Some(n),
{
    lemma_decimal_digits(n as nat);
    let s = decimal(n as nat);
    assert(is_digit(s[0]));
    assert(unsigned_digits(s) == s);
}

/// Numerals are written with the ASCII digits `0` to `9`, digit `d` as
/// the character `d` places after `0`, and read back the same way.
pub proof fn lemma_digits_are_ascii(d: nat)
    requires
        d < 10,
    ensures
        (digit_char(d) as u32) == ('0' as u32) + d,
        digit_char(0) == '0',
        digit_char(9) == '9',
        is_digit(digit_char(d)),
        digit_value(digit_char(d)) == d,
        forall|c: char| is_digit(c) <==> 48 <= (c as u32) <= 57,
{
}

/// Numerals are read in base ten: one more digit on the right multiplies
/// the value so far by ten and adds the digit's value, its code less that
/// of `0`.
pub proof fn lemma_place_value(s: Seq<char>, c: char)
    requires
        48 <= (c as u32) <= 57,
    ensures
        digits_value(s.push(c)) == digits_value(s) * 10 + ((c as u32) - 48),
        digits_value(Seq::empty()) == 0,
{
    assert(s.push(c).drop_last() =~= s);
}

/// What `parse_u64` refuses: the empty string, a lone `+`, anything that
/// starts with a character other than `+` or a digit, and anything with a
/// character other than a digit after its first; a leading `+` before a
/// numeral is accepted and changes nothing.
pub proof fn lemma_parse_refusals(s: Seq<char>, n: u64)
    ensures
        parsed_u64(Seq::empty()) is None,
        parsed_u64(seq!['+']) is None,
        s.len() > 0 && s[0] != '+' && !(48 <= (s[0] as u32) <= 57) ==> parsed_u64(s) is None,
        (exists|i: int|
            #![trigger s[i]]
            1 <= i < s.len() && !(48 <= (s[i] as u32) <= 57)) ==> parsed_u64(s) is None,
        parsed_u64(seq!['+'] + decimal(n as nat)) == Some(n),
{
    assert(seq!['+'].drop_first() =~= Seq::<char>::empty());
    if exists|i: int| #![trigger s[i]] 1 <= i < s.len() && !(48 <= (s[i] as u32) <= 57) {
        let i = choose|i: int| #![trigger s[i]] 1 <= i < s.len() && !(48 <= (s[i] as u32) <= 57);
        let digits = unsigned_digits(s);
        if s[0] == '+' {
            assert(digits[i - 1] == s[i]);
            assert(!is_digit(digits[i - 1]));
        } else {
            assert(digits[i] == s[i]);
            assert(!is_digit(digits[i]));
        }
    }
    if s.len() > 0 && s[0] != '+' && !(48 <= (s[0] as u32) <= 57) {
        assert(unsigned_digits(s)[0] == s[0]);
        assert(!is_digit(unsigned_digits(s)[0]));
    }
    let p = seq!['+'] + decimal(n as nat);
    assert(p.drop_first() =~= decimal(n as nat));
    lemma_decimal_digits(n as nat);
    assert(is_digit(decimal(n as nat)[0]));
    lemma_parse_decimal_roundtrip(n);
    assert(unsigned_digits(p) == decimal(n as nat));
}

/// The one-character string of the digit `d`.
fn digit_str(d: u64) -> (res: &'static str)
    requires
        d < 10,
    ensures
        res@ == seq![digit_char(d as nat)],
{
    if d == 0 {
        proof { reveal_strlit("0"); }
        "0"
    } else if d == 1 {
        proof { reveal_strlit("1"); }
        "1"
    } else if d == 2 {
        proof { reveal_strlit("2"); }
        "2"
    } else if d == 3 {
        proof { reveal_strlit("3"); }
        "3"
    } else if d == 4 {
        proof { reveal_strlit("4"); }
        "4"
    } else if d == 5 {
        proof { reveal_strlit("5"); }
        "5"
    } else if d == 6 {
        proof { reveal_strlit("6"); }
        "6"
    } else if d == 7 {
        proof { reveal_strlit("7"); }
        "7"
    } else if d == 8 {
        proof { reveal_strlit("8"); }
        "8"
    } else {
        proof { reveal_strlit("9"); }
        "9"
    }
}

/// `n` written in base ten, as `n.to_string()` gives it.
pub fn decimal_string(n: u64) -> (res: String)
    ensures
        res@ == decimal(n as nat),
    decreases n,
{
    if n < 10 {
        String::from_str(digit_str(n))
    } else {
        let mut res = decimal_string(n / 10);
        res.append(digit_str(n % 10));
        res
    }
}

/// `s.parse::<u64>().ok()`: the number that `s` writes in base ten, or
/// `None` where `u64::from_str` refuses `s`.
pub fn parse_u64(s: &str) -> (res: Option<u64>)
    ensures
        res == parsed_u64(s@),
{
    let n = s.unicode_len();
    let mut i: usize = 0;
    if n > 0 && s.get_char(0) == '+' {
        i = 1;
    }
    let ghost digits = unsigned_digits(s@);
    assert(digits =~= s@.subrange(i as int, n as int));
    if i == n {
        return None;
    }
    let mut value: u64 = 0;
    let mut overflow = false;
    while i < n
        invariant
            n == s@.len(),
            digits == s@.subrange(unsigned_start(s@), n as int),
            unsigned_start(s@) <= i <= n,
            forall|j: int| unsigned_start(s@) <= j < i ==> #[trigger] is_digit(s@[j]),
            !overflow ==> value == digits_value(s@.subrange(unsigned_start(s@), i as int)),
            overflow ==> digits_value(s@.subrange(unsigned_start(s@), i as int)) > u64::MAX,
        decreases n - i,
    {
        let c = s.get_char(i);
        let ghost prefix = s@.subrange(unsigned_start(s@), i as int);
        assert(s@.subrange(unsigned_start(s@), i + 1).drop_last() =~= prefix);
        if !((c as u32) >= 48 && (c as u32) <= 57) {
            assert(!is_digit(digits[i - unsigned_start(s@)]));
            return None;
        }
        let d = ((c as u32) - 48) as u64;
        if !overflow {
            if value > (u64::MAX - d) / 10 {
                overflow = true;
            } else {
                value = value * 10 + d;
            }
        }
        i = i + 1;
    }
    assert(s@.subrange(unsigned_start(s@), n as int) == digits);
    if overflow {
        None
    } else {
        Some(value)
    }
}

/// Where the digits of `s` begin: after a leading `+`, if there is one.
pub open spec fn unsigned_start(s: Seq<char>) -> int {
    if s.len() > 0 && s[0] == '+' {
        1
    } else {
        0
    }
}

} // verus!
