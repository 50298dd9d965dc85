//! Verified helpers on strings, stated over their character sequences:
//! joining, decimal numerals, prefixes and the argument of a command.

use vstd::prelude::*;

verus! {

/// The character sequences of a sequence of strings.
pub open spec fn texts(items: Seq<String>) -> Seq<Seq<char>> {
    Seq::new(items.len(), |i: int| items[i]@)
}

/// `parts` written one after the other with `sep` between neighbours.
pub open spec fn join(parts: Seq<Seq<char>>, sep: Seq<char>) -> Seq<char>
    decreases parts.len(),
{
    if parts.len() == 0 {
        Seq::empty()
    } else if parts.len() == 1 {
        parts[0]
    } else {
        join(parts.drop_last(), sep) + sep + parts.last()
    }
}

/// The ten decimal digits in order.
pub open spec fn digit_chars() -> Seq<char> {
    seq!['0', '1', '2', '3', '4', '5', '6', '7', '8', '9']
}

/// Whether `c` is an ASCII decimal digit.
pub open spec fn is_digit(c: char) -> bool {
    digit_chars().contains(c)
}

/// The value of the digit `c`; meaningful where `is_digit(c)`.
pub open spec fn digit_value(c: char) -> nat {
    digit_chars().index_of(c) as nat
}

/// The decimal numeral of `n`, without sign or leading zeros.
pub open spec fn decimal_nat(n: nat) -> Seq<char>
    decreases n,
{
    if n < 10 {
        seq![digit_chars()[n as int]]
    } else {
        decimal_nat(n / 10).push(digit_chars()[(n % 10) as int])
    }
}

/// The decimal numeral of `n`, with a leading `-` for negative numbers.
pub open spec fn decimal(n: int) -> Seq<char> {
    if n < 0 {
        seq!['-'] + decimal_nat((-n) as nat)
    } else {
        decimal_nat(n as nat)
    }
}

/// Whether every character of `s` is a decimal digit.
pub open spec fn all_digits(s: Seq<char>) -> bool {
    forall|i: int| 0 <= i < s.len() ==> is_digit(#[trigger] s[i])
}

/// The number that the digit string `s` denotes, leading zeros allowed.
pub open spec fn digits_value(s: Seq<char>) -> nat
    decreases s.len(),
{
    if s.len() == 0 {
        0
    } else {
        digits_value(s.drop_last()) * 10 + digit_value(s.last())
    }
}

/// The integer that the numeral `s` denotes: an optional `+` or `-`, then one
/// or more decimal digits. Anything else denotes nothing.
pub open spec fn parse_decimal(s: Seq<char>) -> Option<int> {
    if s.len() == 0 {
        None
    } else if s[0] == '-' {
        if s.len() >= 2 && all_digits(s.skip(1)) {
            Some(-(digits_value(s.skip(1)) as int))
        } else {
            None
        }
    } else if s[0] == '+' {
        if s.len() >= 2 && all_digits(s.skip(1)) {
            Some(digits_value(s.skip(1)) as int)
        } else {
            None
        }
    } else if all_digits(s) {
        Some(digits_value(s) as int)
    } else {
        None
    }
}

/// The 64-bit signed integer that `s` denotes, if it denotes one that fits.
pub open spec fn parse_i64(s: Seq<char>) -> Option<i64> {
    match parse_decimal(s) {
        Some(v) => if i64::MIN <= v <= i64::MAX {
            Some(v as i64)
        } else {
            None
        },
        None => None,
    }
}

/// What follows the first space of `s`, if it holds a space.
pub open spec fn after_first_space(s: Seq<char>) -> Option<Seq<char>> {
    if s.contains(' ') {
        Some(s.skip(s.index_of_first(' ').unwrap() + 1))
    } else {
        None
    }
}

/// The characters of `s`, collected for constant-time indexing.
pub fn to_chars(s: &str) -> (out: Vec<char>)
    ensures
        out@ == s@,
{
    let mut out: Vec<char> = Vec::new();
    for c in it: s.chars()
        invariant
            it.seq() == s@,
            out@ == s@.take(it.index() as int),
    {
        out.push(c);
    }
    out
}

/// Joins `parts` with `sep` between neighbours.
pub fn join_strings(parts: &Vec<String>, sep: &str) -> (out: String)
    ensures
        out@ == join(texts(parts@), sep@),
{
    let mut out: String = String::new();
    let n: usize = parts.len();
    let mut i: usize = 0;
    while i < n
        invariant
            n == parts@.len(),
            i <= n,
            out@ == join(texts(parts@).take(i as int), sep@),
        decreases n - i,
    {
        proof {
            let all = texts(parts@);
            let next = all.take(i + 1);
            assert(next.drop_last() == all.take(i as int));
            assert(next.last() == parts@[i as int]@);
            if i == 0 {
                assert(Seq::<char>::empty() + parts@[0]@ == parts@[0]@);
            }
        }
        if i > 0 {
            out.append(sep);
        }
        out.append(parts[i].as_str());
        i = i + 1;
    }
    proof {
        assert(texts(parts@).take(n as int) == texts(parts@));
    }
    out
}

/// The digit `d` as a one-character string.
fn digit_str(d: u64) -> (out: &'static str)
    requires
        d < 10,
    ensures
        out@ == seq![digit_chars()[d as int]],
{
    proof {
        reveal_strlit("0");
        reveal_strlit("1");
        reveal_strlit("2");
        reveal_strlit("3");
        reveal_strlit("4");
        reveal_strlit("5");
        reveal_strlit("6");
        reveal_strlit("7");
        reveal_strlit("8");
        reveal_strlit("9");
    }
    let out: &'static str = if d == 0 {
        "0"
    } else if d == 1 {
        "1"
    } else if d == 2 {
        "2"
    } else if d == 3 {
        "3"
    } else if d == 4 {
        "4"
    } else if d == 5 {
        "5"
    } else if d == 6 {
        "6"
    } else if d == 7 {
        "7"
    } else if d == 8 {
        "8"
    } else {
        "9"
    };
    assert(out@ =~= seq![digit_chars()[d as int]]);
    out
}

/// Appends the decimal numeral of `n` to `out`.
fn append_decimal(out: &mut String, n: u64)
    ensures
        final(out)@ == old(out)@ + decimal_nat(n as nat),
    decreases n,
{
    if n >= 10 {
        append_decimal(out, n / 10);
    }
    out.append(digit_str(n % 10));
    proof {
        if n >= 10 {
            assert(final(out)@ =~= old(out)@ + decimal_nat(n as nat));
        }
    }
}

/// The decimal numeral of `n`.
pub fn decimal_string(n: i64) -> (out: String)
    ensures
        out@ == decimal(n as int),
{
    let mut out: String = String::new();
    if n < 0 {
        proof {
            reveal_strlit("-");
        }
        out.append("-");
        let magnitude: u64 = ((-(n + 1)) as u64) + 1;
        append_decimal(&mut out, magnitude);
    } else {
        append_decimal(&mut out, n as u64);
    }
    out
}

/// The value of `c` as a digit, if it is one.
fn digit_of(c: char) -> (out: Option<u8>)
    ensures
        out.is_some() == is_digit(c),
        out matches Some(d) ==> d < 10 && d == digit_value(c) && digit_chars()[d as int] == c,
{
    let out: Option<u8> = if c == '0' {
        Some(0)
    } else if c == '1' {
        Some(1)
    } else if c == '2' {
        Some(2)
    } else if c == '3' {
        Some(3)
    } else if c == '4' {
        Some(4)
    } else if c == '5' {
        Some(5)
    } else if c == '6' {
        Some(6)
    } else if c == '7' {
        Some(7)
    } else if c == '8' {
        Some(8)
    } else if c == '9' {
        Some(9)
    } else {
        None
    };
    proof {
        let digits = digit_chars();
        match out {
            Some(d) => {
                assert(digits[d as int] == c);
                assert(digits.contains(c));
                let j = digits.index_of(c);
                assert(0 <= j < 10 && digits[j] == c);
            },
            None => {
                assert(!digits.contains(c));
            },
        }
    }
    out
}

/// The numerals of distinct digits differ, so a digit's value is its place
/// among the ten.
pub proof fn lemma_digit_value(d: int)
    requires
        0 <= d < 10,
    ensures
        is_digit(digit_chars()[d]),
        digit_value(digit_chars()[d]) == d,
{
    let digits = digit_chars();
    let c = digits[d];
    assert(digits.contains(c));
    let j = digits.index_of(c);
    assert(0 <= j < 10 && digits[j] == c);
}

/// Reads a 64-bit signed integer: an optional sign, then decimal digits.
#[verifier::loop_isolation(false)]
pub fn parse_integer(s: &str) -> (out: Option<i64>)
    ensures
        out == parse_i64(s@),
{
    let chars: Vec<char> = to_chars(s);
    let n: usize = chars.len();
    if n == 0 {
        return None;
    }
    let negative: bool = chars[0] == '-';
    let signed: bool = negative || chars[0] == '+';
    let start: usize = if signed {
        1
    } else {
        0
    };
    if signed && n < 2 {
        return None;
    }
    let ghost body: Seq<char> = s@.skip(start as int);
    let limit: u128 = 9_223_372_036_854_775_808;
    let mut value: u128 = 0;
    let mut exceeded: bool = false;
    let mut i: usize = start;
    while i < n
        invariant
            chars@ == s@,
            n == s@.len(),
            start <= i <= n,
            body == s@.skip(start as int),
            limit == 9_223_372_036_854_775_808u128,
            all_digits(body.take(i - start)),
            exceeded ==> digits_value(body.take(i - start)) > limit,
            !exceeded ==> value == digits_value(body.take(i - start)) && value <= limit,
        decreases n - i,
    {
        let ghost before = body.take(i - start);
        let ghost after = body.take(i - start + 1);
        proof {
            assert(after.drop_last() == before);
            assert(after.last() == s@[i as int]);
        }
        match digit_of(chars[i]) {
            None => {
                proof {
                    assert(body[i - start] == s@[i as int]);
                    assert(!all_digits(body));
                    if signed {
                        assert(s@.skip(1) == body);
                    } else {
                        assert(s@.skip(0) == s@);
                    }
                }
                return None;
            },
            Some(d) => {
                proof {
                    assert forall|k: int| 0 <= k < after.len() implies is_digit(
                        #[trigger] after[k],
                    ) by {
                        if k < after.len() - 1 {
                            assert(after[k] == before[k]);
                        }
                    }
                }
                if !exceeded {
                    let next: u128 = value * 10 + d as u128;
                    if next > limit {
                        exceeded = true;
                    } else {
                        value = next;
                    }
                } else {
                    assert(digits_value(after) >= digits_value(before)) by (nonlinear_arith)
                        requires
                            digits_value(after) == digits_value(before) * 10 + d,
                    ;
                }
            },
        }
        i = i + 1;
    }
    proof {
        assert(body.take(n - start) == body);
        if signed {
            assert(s@.skip(1) == body);
        } else {
            assert(s@.skip(0) == s@);
        }
    }
    if exceeded {
        None
    } else if negative {
        if value == limit {
            Some(i64::MIN)
        } else {
            Some(-(value as i64))
        }
    } else if value == limit {
        None
    } else {
        Some(value as i64)
    }
}

/// Whether `s` begins with `prefix`.
pub fn has_prefix(s: &Vec<char>, prefix: &Vec<char>) -> (out: bool)
    ensures
        out == prefix@.is_prefix_of(s@),
{
    if prefix.len() > s.len() {
        return false;
    }
    let n: usize = prefix.len();
    let mut i: usize = 0;
    while i < n
        invariant
            n == prefix@.len(),
            n <= s@.len(),
            i <= n,
            forall|k: int| 0 <= k < i ==> s@[k] == prefix@[k],
        decreases n - i,
    {
        if s[i] != prefix[i] {
            proof {
                assert(s@.subrange(0, n as int)[i as int] != prefix@[i as int]);
            }
            return false;
        }
        i = i + 1;
    }
    proof {
        assert(s@.subrange(0, n as int) =~= prefix@);
    }
    true
}

/// The text after the first space of `s`: the argument of a command.
pub fn command_argument(s: &str) -> (out: Option<String>)
    ensures
        out.is_some() == after_first_space(s@).is_some(),
        out matches Some(rest) ==> after_first_space(s@) == Some(rest@),
{
    let chars: Vec<char> = to_chars(s);
    let n: usize = chars.len();
    let mut i: usize = 0;
    while i < n
        invariant
            chars@ == s@,
            n == s@.len(),
            i <= n,
            forall|k: int| 0 <= k < i ==> s@[k] != ' ',
        decreases n - i,
    {
        if chars[i] == ' ' {
            proof {
                s@.index_of_first_ensures(' ');
                assert(s@.contains(' '));
                assert(s@.subrange(i + 1, n as int) == s@.skip(i + 1));
            }
            let rest: &str = s.substring_char(i + 1, n);
            return Some(String::from_str(rest));
        }
        i = i + 1;
    }
    None
}

/// Reading the numeral of a number gives the number back.
pub proof fn lemma_decimal_round_trip(n: int)
    ensures
        parse_decimal(decimal(n)) == Some(n),
{
    if n < 0 {
        let m = (-n) as nat;
        lemma_decimal_nat_digits(m);
        let s = decimal(n);
        assert(s[0] == '-');
        assert(s.skip(1) == decimal_nat(m));
    } else {
        let m = n as nat;
        lemma_decimal_nat_digits(m);
        let s = decimal_nat(m);
        assert(is_digit(s[0]));
        assert(s[0] != '-' && s[0] != '+') by {
            let digits = digit_chars();
            let j = digits.index_of(s[0]);
            assert(0 <= j < 10 && digits[j] == s[0]);
        }
    }
}

/// A numeral holds at least one character, only digits, and denotes its number.
pub proof fn lemma_decimal_nat_digits(n: nat)
    ensures
        decimal_nat(n).len() >= 1,
        all_digits(decimal_nat(n)),
        digits_value(decimal_nat(n)) == n,
    decreases n,
{
    let s = decimal_nat(n);
    if n < 10 {
        lemma_digit_value(n as int);
        assert(s.drop_last() == Seq::<char>::empty());
        assert(digits_value(s.drop_last()) == 0);
    } else {
        lemma_decimal_nat_digits(n / 10);
        lemma_digit_value((n % 10) as int);
        let head = decimal_nat(n / 10);
        assert(s.drop_last() == head);
        assert forall|i: int| 0 <= i < s.len() implies is_digit(#[trigger] s[i]) by {
            if i < head.len() {
                assert(s[i] == head[i]);
            }
        }
    }
}

} // verus!
