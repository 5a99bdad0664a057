use vstd::prelude::*;

verus! {

/// `c` is one of the ASCII digits `0` to `9`.
pub open spec fn is_digit(c: char) -> bool {
    '0' as int <= c as int && c as int <= '9' as int
}

/// The value of a digit character.
pub open spec fn digit_of(c: char) -> int {
    c as int - '0' as int
}

/// The digit character for a value below ten.
pub open spec fn digit_char(d: int) -> char {
    ('0' as int + d) as char
}

pub open spec fn all_digits(s: Seq<char>) -> bool {
    forall|i: int| 0 <= i < s.len() ==> is_digit(#[trigger] s[i])
}

/// The number that a string of decimal digits denotes (leading zeros allowed).
pub open spec fn digits_value(s: Seq<char>) -> int
    decreases s.len(),
{
    if s.len() == 0 {
        0
    } else {
        digits_value(s.drop_last()) * 10 + digit_of(s.last())
    }
}

/// What parsing `s` as an unsigned integer whose largest value is `max`
/// gives: an optional `+`, then at least one digit and nothing else, with a
/// value no larger than `max`.
pub open spec fn parse_unsigned(s: Seq<char>, max: int) -> Option<int> {
    let body = if s.len() > 0 && s[0] == '+' { s.drop_first() } else { s };
    if body.len() > 0 && all_digits(body) && digits_value(body) <= max {
        Some(digits_value(body))
    } else {
        None
    }
}

/// What parsing `s` as a signed integer in `min ..= max` gives: an optional
/// `+` or `-`, then at least one digit and nothing else, within the range.
pub open spec fn parse_signed(s: Seq<char>, min: int, max: int) -> Option<int> {
    if s.len() > 0 && s[0] == '-' {
        let body = s.drop_first();
        if body.len() > 0 && all_digits(body) && min <= -digits_value(body) {
            Some(-digits_value(body))
        } else {
            None
        }
    } else {
        parse_unsigned(s, max)
    }
}

/// The decimal digits of `n`, without leading zeros.
pub open spec fn decimal(n: nat) -> Seq<char>
    decreases n,
{
    if n < 10 {
        seq![digit_char(n as int)]
    } else {
        decimal(n / 10).push(digit_char((n % 10) as int))
    }
}

/// `n` written with at least two digits, padded on the left with `0`.
pub open spec fn pad2(n: nat) -> Seq<char> {
    if n < 10 {
        seq!['0'] + decimal(n)
    } else {
        decimal(n)
    }
}

/// `hour:minute`, each written with at least two digits.
pub open spec fn clock_text(hour: nat, minute: nat) -> Seq<char> {
    pad2(hour) + seq![':'] + pad2(minute)
}

proof fn lemma_value_nonneg(s: Seq<char>)
    requires
        all_digits(s),
    ensures
        digits_value(s) >= 0,
    decreases s.len(),
{
    if s.len() > 0 {
        assert(is_digit(s[s.len() - 1]));
        lemma_value_nonneg(s.drop_last());
    }
}

/// A prefix of a digit string never denotes more than the whole string.
proof fn lemma_prefix_value_le(s: Seq<char>, k: int)
    requires
        all_digits(s),
        0 <= k <= s.len(),
    ensures
        digits_value(s.take(k)) <= digits_value(s),
    decreases s.len(),
{
    if k < s.len() {
        assert(is_digit(s[s.len() - 1]));
        lemma_value_nonneg(s.drop_last());
        lemma_prefix_value_le(s.drop_last(), k);
        assert(s.drop_last().take(k) =~= s.take(k));
    } else {
        assert(s.take(k) =~= s);
    }
}

/// The value of the digits `s[start..]`, when there is at least one, all of
/// them are digits and the value is at most `max`.
fn digits_from(s: &str, start: usize, max: u64) -> (r: Option<u64>)
    requires
        start <= s@.len(),
        max <= 0x1_0000_0000,
    ensures
        ({
            let body = s@.skip(start as int);
            match r {
                Some(v) => body.len() > 0 && all_digits(body) && digits_value(body) == v
                    && v <= max,
                None => !(body.len() > 0 && all_digits(body) && digits_value(body) <= max),
            }
        }),
{
    let n = s.unicode_len();
    let ghost body = s@.skip(start as int);
    if start == n {
        return None;
    }
    let mut acc: u64 = 0;
    let mut i: usize = start;
    while i < n
        invariant
            n == s@.len(),
            start <= i <= n,
            body == s@.skip(start as int),
            max <= 0x1_0000_0000,
            all_digits(s@.subrange(start as int, i as int)),
            acc == digits_value(s@.subrange(start as int, i as int)),
            acc <= max,
        decreases n - i,
    {
        let c = s.get_char(i);
        if !(c >= '0' && c <= '9') {
            assert(body[i - start] == c);
            return None;
        }
        let d = (c as u32 - '0' as u32) as u64;
        let ghost prev = s@.subrange(start as int, i as int);
        let ghost next = s@.subrange(start as int, i + 1);
        assert(next.drop_last() =~= prev);
        assert(next.last() == c);
        assert(all_digits(next)) by {
            assert forall|k: int| 0 <= k < next.len() implies is_digit(#[trigger] next[k]) by {
                if k < prev.len() {
                    assert(next[k] == prev[k]);
                }
            }
        }
        let value = acc * 10 + d;
        if value > max {
            proof {
                assert(body.take(next.len() as int) =~= next);
                if all_digits(body) {
                    lemma_prefix_value_le(body, next.len() as int);
                }
            }
            return None;
        }
        acc = value;
        i = i + 1;
    }
    assert(s@.subrange(start as int, n as int) =~= body);
    Some(acc)
}

/// Parses a `u8` the way `str::parse::<u8>` does, `None` where it fails.
pub fn parse_u8(s: &str) -> (r: Option<u8>)
    ensures
        match r {
            Some(v) => parse_unsigned(s@, 255) == Some(v as int),
            None => parse_unsigned(s@, 255) is None,
        },
{
    let n = s.unicode_len();
    let start: usize = if n > 0 && s.get_char(0) == '+' { 1 } else { 0 };
    proof {
        if start == 1 {
            assert(s@.skip(1) =~= s@.drop_first());
        } else {
            assert(s@.skip(0) =~= s@);
        }
    }
    match digits_from(s, start, 255) {
        Some(v) => Some(v as u8),
        None => None,
    }
}

/// Parses an `i32` the way `str::parse::<i32>` does, `None` where it fails.
pub fn parse_i32(s: &str) -> (r: Option<i32>)
    ensures
        match r {
            Some(v) => parse_signed(s@, i32::MIN as int, i32::MAX as int) == Some(v as int),
            None => parse_signed(s@, i32::MIN as int, i32::MAX as int) is None,
        },
{
    let n = s.unicode_len();
    if n > 0 && s.get_char(0) == '-' {
        assert(s@.skip(1) =~= s@.drop_first());
        match digits_from(s, 1, 0x8000_0000) {
            Some(v) => {
                let neg: i64 = -(v as i64);
                Some(neg as i32)
            },
            None => None,
        }
    } else {
        let start: usize = if n > 0 && s.get_char(0) == '+' { 1 } else { 0 };
        proof {
            if start == 1 {
                assert(s@.skip(1) =~= s@.drop_first());
            } else {
                assert(s@.skip(0) =~= s@);
            }
        }
        match digits_from(s, start, 0x7fff_ffff) {
            Some(v) => Some(v as i32),
            None => None,
        }
    }
}

/// The one-character text of a digit value.
fn digit_text(d: u8) -> (r: &'static str)
    requires
        d < 10,
    ensures
        r@ == seq![digit_char(d as int)],
{
    proof {
        reveal_strlit("0");
        reveal_strlit("1");
        reveal_strlit("2");
        reveal_strlit("3");
        reveal_strlit("4");
        reveal_strlit("5");
        reveal_strlit("6");
        reveal_strlit("7");
        reveal_strlit("8");
        reveal_strlit("9");
    }
    let r = match d {
        0 => "0",
        1 => "1",
        2 => "2",
        3 => "3",
        4 => "4",
        5 => "5",
        6 => "6",
        7 => "7",
        8 => "8",
        _ => "9",
    };
    assert(r@ =~= seq![digit_char(d as int)]);
    r
}

/// `n` in decimal, padded with a leading `0` to at least two digits.
pub fn two_digits(n: u8) -> (r: String)
    ensures
        r@ == pad2(n as nat),
{
    let mut r = String::new();
    if n < 10 {
        proof { reveal_strlit("0"); }
        r.append("0");
        r.append(digit_text(n));
        assert(r@ =~= pad2(n as nat));
    } else if n < 100 {
        r.append(digit_text(n / 10));
        r.append(digit_text(n % 10));
        proof {
            let nn = n as nat;
            assert(decimal(nn / 10) == seq![digit_char((nn / 10) as int)]);
        }
        assert(r@ =~= pad2(n as nat));
    } else {
        r.append(digit_text(n / 100));
        r.append(digit_text((n / 10) % 10));
        r.append(digit_text(n % 10));
        proof {
            let nn = n as nat;
            assert(nn / 10 / 10 == nn / 100);
            assert(decimal(nn / 10 / 10) == seq![digit_char((nn / 100) as int)]);
            assert(decimal(nn / 10) == decimal(nn / 10 / 10).push(
                digit_char(((nn / 10) % 10) as int),
            ));
        }
        assert(r@ =~= pad2(n as nat));
    }
    r
}

/// The `HH:MM` label of a time of day.
pub fn clock_label(hour: u8, minute: u8) -> (r: String)
    ensures
        r@ == clock_text(hour as nat, minute as nat),
{
    let mut r = two_digits(hour);
    proof { reveal_strlit(":"); }
    r.append(":");
    let m = two_digits(minute);
    r.append(m.as_str());
    assert(r@ =~= clock_text(hour as nat, minute as nat));
    r
}

proof fn lemma_decimal_digits(n: nat)
    ensures
        all_digits(decimal(n)),
        decimal(n).len() > 0,
        digits_value(decimal(n)) == n,
    decreases n,
{
    if n >= 10 {
        lemma_decimal_digits(n / 10);
        let d = decimal(n);
        assert(d.drop_last() =~= decimal(n / 10));
        assert(digit_of(d.last()) == n % 10);
        assert(n == (n / 10) * 10 + n % 10);
        assert(digits_value(d) == digits_value(decimal(n / 10)) * 10 + digit_of(d.last()));
        assert forall|i: int| 0 <= i < d.len() implies is_digit(#[trigger] d[i]) by {
            if i < d.len() - 1 {
                assert(d[i] == decimal(n / 10)[i]);
            }
        }
    } else {
        assert(decimal(n).drop_last() =~= Seq::<char>::empty());
        assert(digit_of(decimal(n).last()) == n);
        assert(digits_value(Seq::<char>::empty()) == 0);
        assert(digits_value(decimal(n)) == digits_value(decimal(n).drop_last()) * 10 + digit_of(decimal(n).last()));
    }
}

/// Reading back a number written with `two_digits` gives the number again:
/// the time fields of the schedule form round-trip.
pub proof fn lemma_pad2_parses_back(n: nat)
    requires
        n <= 255,
    ensures
        parse_unsigned(pad2(n), 255) == Some(n as int),
{
    lemma_decimal_digits(n);
    let p = pad2(n);
    if n < 10 {
        assert(p[0] == '0');
        assert(p.drop_last() =~= seq!['0']);
        assert(seq!['0'].drop_last() =~= Seq::<char>::empty());
        assert(p.last() == decimal(n)[0]);
        assert(digits_value(Seq::<char>::empty()) == 0);
        assert(digit_of('0') == 0);
        assert(digits_value(seq!['0']) == digits_value(seq!['0'].drop_last()) * 10 + digit_of('0'));
        assert(digits_value(seq!['0']) == 0);
        assert(digits_value(p) == digits_value(p.drop_last()) * 10 + digit_of(p.last()));
        assert(all_digits(p)) by {
            assert forall|i: int| 0 <= i < p.len() implies is_digit(#[trigger] p[i]) by {
                if i == 1 {
                    assert(p[1] == decimal(n)[0]);
                }
            }
        }
    } else {
        assert(p[0] == decimal(n)[0]);
        assert(is_digit(p[0]));
        assert(p[0] != '+');
    }
}

/// `n` written in decimal, with a leading `-` when it is negative.
pub open spec fn signed_decimal(n: int) -> Seq<char> {
    if n < 0 {
        seq!['-'] + decimal((-n) as nat)
    } else {
        decimal(n as nat)
    }
}

/// Every `i32`, written in decimal, reads back as itself.
pub proof fn lemma_signed_decimal_parses_back(n: int)
    requires
        i32::MIN <= n <= i32::MAX,
    ensures
        parse_signed(signed_decimal(n), i32::MIN as int, i32::MAX as int) == Some(n),
{
    if n < 0 {
        let m = (-n) as nat;
        lemma_decimal_digits(m);
        let s = signed_decimal(n);
        assert(s[0] == '-');
        assert(s.drop_first() =~= decimal(m));
    } else {
        lemma_decimal_digits(n as nat);
        let s = decimal(n as nat);
        assert(is_digit(s[0]));
        assert(s[0] != '-' && s[0] != '+');
    }
}

} // verus!
