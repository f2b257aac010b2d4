//! Decimal text of unsigned integers: reading (`str::parse::<u64>`) and writing
//! (`u64::to_string`).
use vstd::prelude::*;

verus! {

/// `c` is an ASCII decimal digit.
pub open spec fn is_digit(c: char) -> bool {
    '0' <= c <= '9'
}

/// The value of the digit `c`.
pub open spec fn digit_value(c: char) -> nat {
    (c as int - '0' as int) as nat
}

/// The character of the digit `d` (for `d < 10`).
pub open spec fn digit_char(d: nat) -> char {
    ((d + 48) as u8) as char
}

/// Every character of `s` is a digit.
pub open spec fn all_digits(s: Seq<char>) -> bool {
    forall|i: int| 0 <= i < s.len() ==> is_digit(#[trigger] s[i])
}

/// The number that the digits `s` spell, most significant first.
pub open spec fn digits_value(s: Seq<char>) -> nat
    decreases s.len(),
{
    if s.len() == 0 {
        0
    } else {
        digits_value(s.drop_last()) * 10 + digit_value(s.last())
    }
}

/// The digits of `s` after an optional leading `+`.
pub open spec fn unsigned_digits(s: Seq<char>) -> Seq<char> {
    if s.len() > 0 && s[0] == '+' {
        s.drop_first()
    } else {
        s
    }
}

/// What `str::parse::<u64>` accepts: an optional `+`, then at least one digit, and a
/// value that fits in a `u64`.
pub open spec fn parse_u64_spec(s: Seq<char>) -> Option<u64> {
    let d = unsigned_digits(s);
    if d.len() > 0 && all_digits(d) && digits_value(d) <= u64::MAX {
        Some(digits_value(d) as u64)
    } else {
        None
    }
}

/// The decimal text of `n`, without leading zeros (`"0"` for zero).
pub open spec fn decimal_spec(n: nat) -> Seq<char>
    decreases n,
{
    if n < 10 {
        seq![digit_char(n)]
    } else {
        decimal_spec(n / 10).push(digit_char(n % 10))
    }
}

/// A longer run of digits spells a number no smaller than any of its prefixes.
proof fn lemma_digits_value_prefix(s: Seq<char>, i: int)
    requires
        0 <= i <= s.len(),
    ensures
        digits_value(s.take(i)) <= digits_value(s),
    decreases s.len(),
{
    if i < s.len() {
        assert(s.drop_last().take(i) == s.take(i));
        lemma_digits_value_prefix(s.drop_last(), i);
    } else {
        assert(s.take(i) == s);
    }
}

proof fn lemma_digit_char(d: nat)
    requires
        d < 10,
    ensures
        is_digit(digit_char(d)),
        digit_value(digit_char(d)) == d,
{
    let x: u8 = (d + 48) as u8;
    assert(x == d + 48);
    assert((x as char) as int == x as int);
}

/// The decimal text of `n` is a non-empty run of digits that spells `n`.
pub(crate) proof fn lemma_decimal(n: nat)
    ensures
        decimal_spec(n).len() > 0,
        all_digits(decimal_spec(n)),
        digits_value(decimal_spec(n)) == n,
        decimal_spec(n)[0] != '+',
    decreases n,
{
    if n < 10 {
        lemma_digit_char(n);
        assert(decimal_spec(n).drop_last() =~= Seq::<char>::empty());
        assert(decimal_spec(n).last() == digit_char(n));
        assert(digits_value(decimal_spec(n)) == digits_value(Seq::<char>::empty()) * 10
            + digit_value(digit_char(n)));
    } else {
        lemma_decimal(n / 10);
        lemma_digit_char(n % 10);
        let s = decimal_spec(n);
        assert(s.drop_last() == decimal_spec(n / 10));
        assert(forall|i: int| 0 <= i < s.len() - 1 ==> s[i] == decimal_spec(n / 10)[i]);
        assert(s.last() == digit_char(n % 10));
        assert(n == (n / 10) * 10 + n % 10) by (nonlinear_arith);
        assert(digits_value(s) == digits_value(decimal_spec(n / 10)) * 10 + digit_value(
            digit_char(n % 10),
        ));
    }
}

/// Reading back the decimal text of a number gives the number.
pub proof fn law_decimal_reads_back(n: u64)
    ensures
        parse_u64_spec(decimal_spec(n as nat)) == Some(n),
{
    lemma_decimal(n as nat);
}

/// The value of the decimal `text` (`str::parse::<u64>`), or `None` where it is not one.
pub fn parse_u64(text: &str) -> (r: Option<u64>)
    ensures
        r == parse_u64_spec(text@),
{
    let v = crate::text::chars_of(text);
    let mut i: usize = 0;
    if v.len() > 0 && v[0] == '+' {
        i = 1;
    }
    let ghost d = unsigned_digits(v@);
    assert(d == v@.skip(i as int));
    if i >= v.len() {
        return None;
    }
    let start = i;
    let mut value: u64 = 0;
    while i < v.len()
        invariant
            start <= i <= v@.len(),
            v@ == text@,
            d == unsigned_digits(v@),
            d == v@.skip(start as int),
            d.len() > 0,
            all_digits(d.take(i - start)),
            value == digits_value(d.take(i - start)),
        decreases v.len() - i,
    {
        let c = v[i];
        if c < '0' || c > '9' {
            assert(d[i - start] == c);
            assert(!is_digit(d[i - start]));
            assert(!all_digits(d));
            return None;
        }
        let dig: u64 = (c as u32 - '0' as u32) as u64;
        let next: u128 = (value as u128) * 10 + (dig as u128);
        proof {
            assert(d.take(i - start + 1).drop_last() == d.take(i - start));
            assert(d.take(i - start + 1).last() == c);
        }
        if next > u64::MAX as u128 {
            proof {
                lemma_digits_value_prefix(d, i - start + 1);
                assert(digits_value(d.take(i - start + 1)) == value * 10 + dig);
            }
            return None;
        }
        value = next as u64;
        i = i + 1;
    }
    assert(d.take(i - start) == d);
    Some(value)
}

/// Appends the decimal text of `n` to `out`.
fn push_decimal(out: &mut Vec<char>, n: u64)
    ensures
        final(out)@ == old(out)@ + decimal_spec(n as nat),
    decreases n,
{
    if n >= 10 {
        push_decimal(out, n / 10);
    }
    let c = ((n % 10) as u8 + 48u8) as char;
    out.push(c);
    proof {
        if n >= 10 {
            assert(old(out)@ + decimal_spec((n / 10) as nat) + seq![c] =~= old(out)@
                + decimal_spec(n as nat));
        } else {
            assert(old(out)@ + seq![c] =~= old(out)@ + decimal_spec(n as nat));
        }
    }
}

/// The decimal text of `n` (`u64::to_string`).
pub fn to_decimal(n: u64) -> (s: String)
    ensures
        s@ == decimal_spec(n as nat),
{
    let mut v: Vec<char> = Vec::new();
    push_decimal(&mut v, n);
    assert(v@ == decimal_spec(n as nat));
    crate::text::string_of(&v)
}

/// A number is read from an optional `+` and its decimal digits, whatever leading zeros
/// they have, as long as it fits in a `u64`; a text with anything else is refused.
pub proof fn law_parse_reads_digits(s: Seq<char>)
    ensures
        parse_u64_spec(s) matches Some(n) ==> {
            let d = if s[0] == '+' { s.drop_first() } else { s };
            &&& s.len() > 0
            &&& d.len() > 0
            &&& forall|k: int| 0 <= k < d.len() ==> '0' <= #[trigger] d[k] <= '9'
            &&& n == digits_value(d)
        },
        s.len() > 0 && s[0] != '+' && all_digits(s) && digits_value(s) <= u64::MAX ==> parse_u64_spec(s)
            == Some(digits_value(s) as u64),
        s.len() > 0 && s[0] != '+' ==> parse_u64_spec(seq!['+'] + s) == parse_u64_spec(s),
        (exists|k: int| 0 <= k < s.len() && s[k] == '-') ==> parse_u64_spec(s) is None,
{
    if s.len() > 0 && s[0] != '+' {
        assert((seq!['+'] + s).drop_first() =~= s);
    }
    if exists|k: int| 0 <= k < s.len() && s[k] == '-' {
        let k = choose|k: int| 0 <= k < s.len() && s[k] == '-';
        let d = unsigned_digits(s);
        if s.len() > 0 && s[0] == '+' {
            assert(d[k - 1] == s[k]);
            assert(!is_digit(d[k - 1]));
        } else {
            assert(!is_digit(d[k]));
        }
    }
}

/// The digits of a number spell it one digit at a time: the last digit is the number
/// modulo ten, and the digits before it spell the number divided by ten.
pub proof fn law_decimal_digits(n: nat)
    ensures
        decimal_spec(n).len() > 0,
        digit_value(decimal_spec(n).last()) == n % 10,
        n >= 10 ==> decimal_spec(n).drop_last() == decimal_spec(n / 10),
        n < 10 ==> decimal_spec(n).len() == 1,
        n > 0 ==> decimal_spec(n)[0] != '0',
    decreases n,
{
    lemma_digit_char(n % 10);
    if n >= 10 {
        law_decimal_digits(n / 10);
        assert(decimal_spec(n)[0] == decimal_spec(n / 10)[0]);
    } else {
        lemma_digit_char(n);
    }
}

} // verus!
