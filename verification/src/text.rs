//! Small text helpers: decimal numbers in and out of strings.

use vstd::prelude::*;

verus! {

/// The character that writes the digit `d`.
pub open spec fn digit(d: int) -> char {
    if d == 0 {
        '0'
    } else if d == 1 {
        '1'
    } else if d == 2 {
        '2'
    } else if d == 3 {
        '3'
    } else if d == 4 {
        '4'
    } else if d == 5 {
        '5'
    } else if d == 6 {
        '6'
    } else if d == 7 {
        '7'
    } else if d == 8 {
        '8'
    } else {
        '9'
    }
}

/// The decimal digits of `n`, most significant first, without leading zeros.
pub open spec fn decimal(n: nat) -> Seq<char>
    decreases n,
{
    if n < 10 {
        seq![digit(n as int)]
    } else {
        decimal(n / 10).push(digit((n % 10) as int))
    }
}

/// `n` in decimal, with a leading zero where it would otherwise be one digit.
pub open spec fn decimal_2(n: nat) -> Seq<char> {
    if n < 10 {
        seq!['0'].push(digit(n as int))
    } else {
        decimal(n)
    }
}

/// Whether `c` is one of the ten decimal digits.
pub open spec fn is_digit(c: char) -> bool {
    '0' <= c <= '9'
}

/// The number that a digit character stands for.
pub open spec fn digit_value(c: char) -> nat
    recommends
        is_digit(c),
{
    (c as int - '0' as int) as nat
}

/// The number written by the digits `s`, read as decimal.
pub open spec fn digits_value(s: Seq<char>) -> nat
    decreases s.len(),
{
    if s.len() == 0 {
        0
    } else {
        digits_value(s.drop_last()) * 10 + digit_value(s.last())
    }
}

/// Whether every character of `s` is a decimal digit.
pub open spec fn all_digits(s: Seq<char>) -> bool {
    forall|i: int| 0 <= i < s.len() ==> is_digit(#[trigger] s[i])
}

/// `s` without one leading plus sign, if it has one.
pub open spec fn unsigned_body(s: Seq<char>) -> Seq<char> {
    if s.len() > 0 && s[0] == '+' {
        s.skip(1)
    } else {
        s
    }
}

/// What `s` denotes as an unsigned 64-bit number: an optional `+`, then at
/// least one decimal digit and nothing else, the value within range.
pub open spec fn parse_u64(s: Seq<char>) -> Option<u64> {
    let body = unsigned_body(s);
    if body.len() > 0 && all_digits(body) && digits_value(body) <= u64::MAX {
        Some(digits_value(body) as u64)
    } else {
        None
    }
}

/// `String::push`: appends the one character `c` to `s`.
#[verifier::external_body]
pub(crate) fn push_char(s: &mut String, c: char)
    ensures
        final(s)@ == old(s)@.push(c),
{
    s.push(c)
}

/// The characters of `s` as a vector.
pub fn chars_of(s: &str) -> (v: Vec<char>)
    ensures
        v@ == s@,
{
    let mut v: Vec<char> = Vec::new();
    for c in it: s.chars()
        invariant
            v@ == it.seq().take(it.index() as int),
            it.seq() == s@,
    {
        v.push(c);
    }
    v
}

fn digit_of(d: u64) -> (c: char)
    requires
        d < 10,
    ensures
        c == digit(d as int),
{
    if d == 0 {
        '0'
    } else if d == 1 {
        '1'
    } else if d == 2 {
        '2'
    } else if d == 3 {
        '3'
    } else if d == 4 {
        '4'
    } else if d == 5 {
        '5'
    } else if d == 6 {
        '6'
    } else if d == 7 {
        '7'
    } else if d == 8 {
        '8'
    } else {
        '9'
    }
}

/// Appends the decimal digits of `n` to `out`.
pub fn push_decimal(out: &mut String, n: u64)
    ensures
        final(out)@ == old(out)@ + decimal(n as nat),
{
    let mut digits: Vec<char> = Vec::new();
    let mut rest: u64 = n / 10;
    digits.push(digit_of(n % 10));
    assert(digits@.reverse() =~= seq![digit((n % 10) as int)]);
    while rest > 0
        invariant
            digits@.len() >= 1,
            rest > 0 ==> decimal(n as nat) == decimal(rest as nat) + digits@.reverse(),
            rest == 0 ==> decimal(n as nat) == digits@.reverse(),
        decreases rest,
    {
        let ghost before = digits@;
        let d = digit_of(rest % 10);
        digits.push(d);
        assert(digits@.reverse() =~= seq![d] + before.reverse());
        proof {
            if rest >= 10 {
                assert(decimal(rest as nat) + before.reverse() =~= decimal((rest / 10) as nat)
                    + (seq![d] + before.reverse()));
            } else {
                assert(decimal(rest as nat) + before.reverse() =~= seq![d] + before.reverse());
            }
        }
        rest = rest / 10;
    }
    let mut i: usize = digits.len();
    while i > 0
        invariant
            i <= digits@.len(),
            out@ == old(out)@ + digits@.reverse().take(digits@.len() - i),
        decreases i,
    {
        i = i - 1;
        push_char(out, digits[i]);
        assert(out@ =~= old(out)@ + digits@.reverse().take(digits@.len() - i));
    }
    assert(digits@.reverse().take(digits@.len() as int) =~= digits@.reverse());
}

/// Appends `n` in decimal to `out`, at least two characters wide.
pub fn push_decimal_2(out: &mut String, n: u64)
    ensures
        final(out)@ == old(out)@ + decimal_2(n as nat),
{
    if n < 10 {
        push_char(out, '0');
        push_char(out, digit_of(n));
        assert(out@ =~= old(out)@ + decimal_2(n as nat));
    } else {
        push_decimal(out, n);
    }
}

/// Appends the characters of `text` to `out`.
pub fn push_str(out: &mut String, text: &str)
    ensures
        final(out)@ == old(out)@ + text@,
{
    out.append(text);
}


/// A prefix of a digit string never denotes more than the whole string.
pub proof fn lemma_digits_value_prefix(s: Seq<char>, k: int)
    requires
        0 <= k <= s.len(),
    ensures
        digits_value(s.take(k)) <= digits_value(s),
    decreases s.len() - k,
{
    if k == s.len() {
        assert(s.take(k) =~= s);
    } else {
        lemma_digits_value_prefix(s, k + 1);
        assert(s.take(k + 1).drop_last() =~= s.take(k));
    }
}

/// Appending a digit to a digit string multiplies what it denotes by ten
/// and adds the digit.
pub proof fn lemma_digits_value_push(s: Seq<char>, c: char)
    ensures
        digits_value(s.push(c)) == digits_value(s) * 10 + digit_value(c),
{
    assert(s.push(c).drop_last() =~= s);
}

/// The decimal digits of a number are digits, at least one of them, and
/// denote the number.
pub proof fn lemma_decimal_denotes(n: nat)
    ensures
        decimal(n).len() >= 1,
        all_digits(decimal(n)),
        digits_value(decimal(n)) == n,
    decreases n,
{
    if n < 10 {
        lemma_digits_value_push(Seq::<char>::empty(), digit(n as int));
        assert(Seq::<char>::empty().push(digit(n as int)) =~= decimal(n));
    } else {
        lemma_decimal_denotes(n / 10);
        lemma_digits_value_push(decimal(n / 10), digit((n % 10) as int));
        assert forall|i: int| 0 <= i < decimal(n).len() implies is_digit(
            #[trigger] decimal(n)[i],
        ) by {
            if i < decimal(n / 10).len() {
                assert(decimal(n)[i] == decimal(n / 10)[i]);
            }
        }
    }
}

/// The two-digit form of a number is made of digits, at least two of them,
/// and denotes the number.
pub proof fn lemma_decimal_2_denotes(n: nat)
    ensures
        decimal_2(n).len() >= 2,
        all_digits(decimal_2(n)),
        digits_value(decimal_2(n)) == n,
        n <= u64::MAX ==> parse_u64(decimal_2(n)) == Some(n as u64),
{
    lemma_decimal_denotes(n);
    if n < 10 {
        lemma_digits_value_push(Seq::<char>::empty(), '0');
        lemma_digits_value_push(seq!['0'], digit(n as int));
        assert(Seq::<char>::empty().push('0') =~= seq!['0']);
    } else {
        lemma_decimal_denotes(n / 10);
    }
    assert(decimal_2(n)[0] != '+');
}

/// Reads `chars[start..end]` as an unsigned decimal number.
pub fn parse_decimal(chars: &Vec<char>, start: usize, end: usize) -> (r: Option<u64>)
    requires
        start <= end <= chars@.len(),
    ensures
        r == parse_u64(chars@.subrange(start as int, end as int)),
{
    let ghost whole = chars@.subrange(start as int, end as int);
    let mut i: usize = start;
    if i < end && chars[i] == '+' {
        i = i + 1;
    }
    let ghost body = unsigned_body(whole);
    assert(body =~= chars@.subrange(i as int, end as int));
    if i == end {
        return None;
    }
    let first: usize = i;
    let mut value: u64 = 0;
    assert(body.take(0) =~= Seq::<char>::empty());
    while i < end
        invariant
            start <= first <= i <= end <= chars@.len(),
            first < end,
            body == chars@.subrange(first as int, end as int),
            body == unsigned_body(chars@.subrange(start as int, end as int)),
            all_digits(body.take(i - first)),
            value == digits_value(body.take(i - first)),
        decreases end - i,
    {
        let c = chars[i];
        assert(body[i - first] == c);
        if c < '0' || c > '9' {
            assert(!is_digit(body[i - first]));
            return None;
        }
        let d: u64 = if c == '0' {
            0
        } else if c == '1' {
            1
        } else if c == '2' {
            2
        } else if c == '3' {
            3
        } else if c == '4' {
            4
        } else if c == '5' {
            5
        } else if c == '6' {
            6
        } else if c == '7' {
            7
        } else if c == '8' {
            8
        } else {
            9
        };
        assert(d == digit_value(c));
        let ghost next = body.take(i - first + 1);
        assert(next.drop_last() =~= body.take(i - first));
        assert(next.last() == c);
        assert(digits_value(next) == value * 10 + d);
        if value > (u64::MAX - d) / 10 {
            assert(digits_value(next) > u64::MAX);
            proof {
                lemma_digits_value_prefix(body, i - first + 1);
            }
            return None;
        }
        value = value * 10 + d;
        assert forall|j: int| 0 <= j < next.len() implies is_digit(#[trigger] next[j]) by {
            if j < i - first {
                assert(next[j] == body.take(i - first)[j]);
            }
        }
        i = i + 1;
    }
    assert(body.take(end - first) =~= body);
    Some(value)
}


/// Whether two strings hold the same characters.
pub fn str_equals(a: &str, b: &str) -> (equal: bool)
    ensures
        equal == (a@ == b@),
{
    let x = chars_of(a);
    let y = chars_of(b);
    if x.len() != y.len() {
        return false;
    }
    let mut i: usize = 0;
    while i < x.len()
        invariant
            x@ == a@,
            y@ == b@,
            i <= x@.len() == y@.len(),
            forall|k: int| 0 <= k < i ==> x@[k] == y@[k],
        decreases x@.len() - i,
    {
        if x[i] != y[i] {
            return false;
        }
        i = i + 1;
    }
    assert(a@ =~= b@);
    true
}

} // verus!
