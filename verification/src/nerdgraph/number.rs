//! JSON number literals: their grammar, and the integers among them.

use vstd::prelude::*;
use vstd::string::StringExecFns;

verus! {

/// Whether `c` is one of the ten decimal digits.
pub open spec fn is_digit(c: char) -> bool {
    '0' <= c && c <= '9'
}

/// Whether every character of `s` is a decimal digit.
pub open spec fn all_digits(s: Seq<char>) -> bool {
    forall|i: int| 0 <= i < s.len() ==> is_digit(#[trigger] s[i])
}

/// One or more digits, the first of which is a zero only if it stands alone.
pub open spec fn is_natural(s: Seq<char>) -> bool {
    s.len() > 0 && all_digits(s) && (s[0] == '0' ==> s.len() == 1)
}

/// An integer literal: a natural, or a minus sign and a natural.
pub open spec fn is_integer_literal(s: Seq<char>) -> bool {
    if s.len() > 0 && s[0] == '-' {
        is_natural(s.skip(1))
    } else {
        is_natural(s)
    }
}

/// A fractional part: a point and one or more digits.
pub open spec fn is_fraction(s: Seq<char>) -> bool {
    s.len() >= 2 && s[0] == '.' && all_digits(s.skip(1))
}

/// An exponent part: `e` or `E`, an optional sign, and one or more digits.
pub open spec fn is_exponent(s: Seq<char>) -> bool {
    s.len() >= 2 && (s[0] == 'e' || s[0] == 'E') && {
        let digits = if s[1] == '+' || s[1] == '-' {
            s.skip(2)
        } else {
            s.skip(1)
        };
        digits.len() > 0 && all_digits(digits)
    }
}

/// Whether `s` reads as an integer literal up to `i`, a fractional part or
/// nothing from `i` to `j`, and an exponent part or nothing from `j` on.
pub open spec fn splits_as_number(s: Seq<char>, i: int, j: int) -> bool {
    &&& 0 <= i <= j <= s.len()
    &&& is_integer_literal(s.subrange(0, i))
    &&& i == j || is_fraction(s.subrange(i, j))
    &&& j == s.len() || is_exponent(s.subrange(j, s.len() as int))
}

/// A JSON number literal: an integer literal, then an optional fractional
/// part, then an optional exponent part.
pub open spec fn is_number_literal(s: Seq<char>) -> bool {
    exists|i: int, j: int| splits_as_number(s, i, j)
}

/// Whether `s` has a fractional or an exponent part, going by its
/// characters: a point, an `e` or an `E` occurs in it.
pub open spec fn has_fraction_or_exponent(s: Seq<char>) -> bool {
    exists|i: int| 0 <= i < s.len() && (s[i] == '.' || s[i] == 'e' || s[i] == 'E')
}

/// The number that the digit `c` stands for.
pub open spec fn digit_value(c: char) -> int {
    c as int - '0' as int
}

/// The digit that stands for `d`, for `d` from 0 to 9.
pub open spec fn digit_char(d: int) -> char {
    ('0' as int + d) as char
}

/// The number that a run of digits stands for, read in base ten.
pub open spec fn natural_value(s: Seq<char>) -> int
    decreases s.len(),
{
    if s.len() == 0 {
        0
    } else {
        natural_value(s.drop_last()) * 10 + digit_value(s.last())
    }
}

/// The number that an integer literal stands for.
pub open spec fn integer_value(s: Seq<char>) -> int {
    if s.len() > 0 && s[0] == '-' {
        -natural_value(s.skip(1))
    } else {
        natural_value(s)
    }
}

/// The number that `s` stands for, if `s` is an integer literal.
pub open spec fn exact_integer(s: Seq<char>) -> Option<int> {
    if is_integer_literal(s) {
        Some(integer_value(s))
    } else {
        None
    }
}

/// The digits of `n` in base ten, without leading zeros.
pub open spec fn decimal(n: nat) -> Seq<char>
    decreases n,
{
    if n < 10 {
        seq![digit_char(n as int)]
    } else {
        decimal(n / 10).push(digit_char((n % 10) as int))
    }
}

/// The literal that stands for `i`: its digits, after a minus sign if `i`
/// is negative.
pub open spec fn integer_text(i: int) -> Seq<char> {
    if i < 0 {
        seq!['-'] + decimal((-i) as nat)
    } else {
        decimal(i as nat)
    }
}

/// The characters of `text`, in order.
pub fn chars_of(text: &str) -> (chars: Vec<char>)
    ensures
        chars@ == text@,
{
    let mut chars: Vec<char> = Vec::new();
    for c in it: text.chars()
        invariant
            it.seq() == text@,
            chars@ == it.seq().take(it.index() as int),
    {
        assert(it.seq().take(it.index() + 1) =~= it.seq().take(it.index() as int).push(c));
        chars.push(c);
    }
    assert(text@.take(text@.len() as int) =~= text@);
    chars
}

/// Where the run of digits that starts at `start` ends.
fn digits_end(chars: &Vec<char>, start: usize) -> (end: usize)
    requires
        start <= chars@.len(),
    ensures
        start <= end <= chars@.len(),
        forall|k: int| start <= k < end ==> is_digit(#[trigger] chars@[k]),
        end < chars@.len() ==> !is_digit(chars@[end as int]),
{
    let mut end = start;
    while end < chars.len() && chars[end] >= '0' && chars[end] <= '9'
        invariant
            start <= end <= chars@.len(),
            forall|k: int| start <= k < end ==> is_digit(#[trigger] chars@[k]),
        decreases chars@.len() - end,
    {
        end += 1;
    }
    end
}

/// What a split into integer, fractional and exponent part says of the
/// characters themselves.
proof fn lemma_split_parts(s: Seq<char>, i: int, j: int)
    requires
        splits_as_number(s, i, j),
    ensures
        ({
            let a: int = if s.len() > 0 && s[0] == '-' {
                1
            } else {
                0
            };
            &&& a < i
            &&& forall|k: int| a <= k < i ==> is_digit(#[trigger] s[k])
            &&& s[a] == '0' ==> i == a + 1
            &&& i < j ==> s[i] == '.' && i + 2 <= j && forall|k: int|
                i < k < j ==> is_digit(#[trigger] s[k])
            &&& j < s.len() ==> {
                let d: int = if s[j + 1] == '+' || s[j + 1] == '-' {
                    j + 2
                } else {
                    j + 1
                };
                &&& s[j] == 'e' || s[j] == 'E'
                &&& j + 1 < s.len()
                &&& d < s.len()
                &&& forall|k: int| d <= k < s.len() ==> is_digit(#[trigger] s[k])
            }
        }),
{
    let head = s.subrange(0, i);
    let a: int = if s.len() > 0 && s[0] == '-' {
        1
    } else {
        0
    };
    assert(head.len() > 0);
    assert(head[0] == s[0]);
    let digits = if a == 1 {
        head.skip(1)
    } else {
        head
    };
    assert(is_natural(digits));
    assert(digits[0] == s[a]);
    assert forall|k: int| a <= k < i implies is_digit(#[trigger] s[k]) by {
        assert(digits[k - a] == s[k]);
    }
    if i < j {
        let frac = s.subrange(i, j);
        assert(frac[0] == s[i]);
        assert forall|k: int| i < k < j implies is_digit(#[trigger] s[k]) by {
            assert(frac.skip(1)[k - i - 1] == s[k]);
        }
    }
    if j < s.len() {
        let exp = s.subrange(j, s.len() as int);
        assert(exp[0] == s[j]);
        assert(exp[1] == s[j + 1]);
        let d: int = if s[j + 1] == '+' || s[j + 1] == '-' {
            j + 2
        } else {
            j + 1
        };
        let run = exp.skip(d - j);
        assert(run.len() > 0 && all_digits(run));
        assert forall|k: int| d <= k < s.len() implies is_digit(#[trigger] s[k]) by {
            assert(run[k - d] == s[k]);
        }
    }
}

/// Whether `text` is a JSON number literal.
pub fn is_number(text: &str) -> (yes: bool)
    ensures
        yes == is_number_literal(text@),
{
    let chars = chars_of(text);
    let n = chars.len();
    let ghost s = chars@;
    let a: usize = if n > 0 && chars[0] == '-' {
        1
    } else {
        0
    };
    let b = digits_end(&chars, a);
    assert forall|i: int, j: int| splits_as_number(s, i, j) implies i == b && (s[a as int] == '0'
        ==> b == a + 1) by {
        lemma_split_parts(s, i, j);
        if i < b {
            assert(is_digit(s[i]));
        }
    }
    if b == a || (chars[a] == '0' && b > a + 1) {
        return false;
    }
    let mut c = b;
    if b < n && chars[b] == '.' {
        c = digits_end(&chars, b + 1);
        if c == b + 1 {
            assert forall|i: int, j: int| !splits_as_number(s, i, j) by {
                if splits_as_number(s, i, j) {
                    lemma_split_parts(s, i, j);
                }
            }
            return false;
        }
    }
    assert forall|i: int, j: int| splits_as_number(s, i, j) implies j == c by {
        lemma_split_parts(s, i, j);
        if i < j {
            if j < c {
                assert(is_digit(s[j]));
            }
            if c < j {
                assert(is_digit(s[c as int]));
            }
        }
    }
    let mut e = c;
    if c < n && (chars[c] == 'e' || chars[c] == 'E') {
        let mut d = c + 1;
        if d < n && (chars[d] == '+' || chars[d] == '-') {
            d += 1;
        }
        e = digits_end(&chars, d);
        if e == d || e < n {
            assert forall|i: int, j: int| !splits_as_number(s, i, j) by {
                if splits_as_number(s, i, j) {
                    lemma_split_parts(s, i, j);
                    if e < n && d < e {
                        assert(is_digit(s[e as int]));
                    }
                }
            }
            return false;
        }
        proof {
            let exp = s.subrange(c as int, n as int);
            assert(exp[0] == s[c as int] && exp[1] == s[c + 1]);
            let run = exp.skip(d - c);
            assert forall|k: int| 0 <= k < run.len() implies is_digit(#[trigger] run[k]) by {
                assert(run[k] == s[k + d]);
            }
            assert(is_exponent(exp));
        }
    } else if c < n {
        assert forall|i: int, j: int| !splits_as_number(s, i, j) by {
            if splits_as_number(s, i, j) {
                lemma_split_parts(s, i, j);
            }
        }
        return false;
    }
    proof {
        let head = s.subrange(0, b as int);
        assert(head[0] == s[0]);
        let digits = if a == 1 {
            head.skip(1)
        } else {
            head
        };
        assert forall|k: int| 0 <= k < digits.len() implies is_digit(#[trigger] digits[k]) by {
            assert(digits[k] == s[k + a]);
        }
        assert(digits[0] == s[a as int]);
        assert(is_integer_literal(head));
        if b < c {
            let frac = s.subrange(b as int, c as int);
            assert(frac[0] == s[b as int]);
            assert forall|k: int| 0 <= k < frac.skip(1).len() implies is_digit(
                #[trigger] frac.skip(1)[k],
            ) by {
                assert(frac.skip(1)[k] == s[k + b + 1]);
            }
        }
        assert(splits_as_number(s, b as int, c as int));
    }
    true
}

/// The value of a run of digits is not negative.
pub proof fn lemma_natural_value_bounds(s: Seq<char>)
    requires
        all_digits(s),
    ensures
        natural_value(s) >= 0,
    decreases s.len(),
{
    if s.len() > 0 {
        assert(is_digit(s[s.len() - 1]));
        assert forall|k: int| 0 <= k < s.drop_last().len() implies is_digit(
            #[trigger] s.drop_last()[k],
        ) by {
            assert(s.drop_last()[k] == s[k]);
        }
        lemma_natural_value_bounds(s.drop_last());
    }
}

/// A run of digits is worth at least as much as any of its prefixes.
pub proof fn lemma_natural_value_prefix(s: Seq<char>, k: int)
    requires
        all_digits(s),
        0 <= k <= s.len(),
    ensures
        0 <= natural_value(s.take(k)) <= natural_value(s),
    decreases s.len() - k,
{
    if k == s.len() {
        assert(s.take(k) =~= s);
        lemma_natural_value_bounds(s);
    } else {
        let longer = s.take(k + 1);
        assert(longer.drop_last() =~= s.take(k));
        assert(longer.last() == s[k]);
        assert(is_digit(s[k]));
        assert forall|m: int| 0 <= m < s.take(k).len() implies is_digit(
            #[trigger] s.take(k)[m],
        ) by {
            assert(s.take(k)[m] == s[m]);
        }
        lemma_natural_value_bounds(s.take(k));
        lemma_natural_value_prefix(s, k + 1);
    }
}

/// The largest magnitude that a 64-bit signed integer can have.
const MAGNITUDE_LIMIT: u128 = 9223372036854775808;

/// The 64-bit signed integer that `text` stands for: there is one exactly
/// when `text` is an integer literal whose value lies in the range of `i64`.
pub fn parse_integer(text: &str) -> (parsed: Option<i64>)
    ensures
        parsed == match exact_integer(text@) {
            Some(value) => if i64::MIN <= value <= i64::MAX {
                Some(value as i64)
            } else {
                None
            },
            None => None,
        },
{
    let chars = chars_of(text);
    let n = chars.len();
    let ghost s = chars@;
    let a: usize = if n > 0 && chars[0] == '-' {
        1
    } else {
        0
    };
    let b = digits_end(&chars, a);
    let ghost digits = s.skip(a as int);
    if b == a || b < n || (chars[a] == '0' && n > a + 1) {
        proof {
            if is_integer_literal(s) {
                assert(is_natural(digits));
                assert(digits[0] == s[a as int]);
                if b < n {
                    assert(digits[b - a] == s[b as int]);
                }
            }
        }
        return None;
    }
    proof {
        assert forall|k: int| 0 <= k < digits.len() implies is_digit(#[trigger] digits[k]) by {
            assert(digits[k] == s[k + a]);
        }
        assert(digits[0] == s[a as int]);
        assert(is_integer_literal(s));
        assert(digits.take(0) =~= Seq::<char>::empty());
        assert(s.skip(0) =~= s);
    }
    let mut magnitude: u128 = 0;
    let mut k = a;
    while k < n
        invariant
            a <= k <= n,
            n == s.len(),
            s == chars@,
            s == text@,
            digits == s.skip(a as int),
            a == 0 ==> digits == s,
            all_digits(digits),
            magnitude == natural_value(digits.take(k - a)),
            magnitude <= MAGNITUDE_LIMIT,
            is_integer_literal(s),
            a == (if s.len() > 0 && s[0] == '-' {
                1int
            } else {
                0int
            }),
        decreases n - k,
    {
        let c = chars[k];
        proof {
            let longer = digits.take(k - a + 1);
            assert(longer.drop_last() =~= digits.take(k - a));
            assert(longer.last() == c);
            assert(digits[k - a] == c);
            assert(is_digit(c));
        }
        let digit: u128 = (c as u32 - '0' as u32) as u128;
        magnitude = magnitude * 10 + digit;
        if magnitude > MAGNITUDE_LIMIT {
            proof {
                lemma_natural_value_prefix(digits, k - a + 1);
            }
            return None;
        }
        k += 1;
    }
    assert(digits.take(n - a) =~= digits);
    if a == 1 {
        if magnitude == MAGNITUDE_LIMIT {
            Some(i64::MIN)
        } else {
            Some(-(magnitude as i64))
        }
    } else if magnitude == MAGNITUDE_LIMIT {
        None
    } else {
        Some(magnitude as i64)
    }
}

/// The one-character text of the digit that stands for `d`.
fn digit_text(d: u64) -> (text: &'static str)
    requires
        d < 10,
    ensures
        text@ == seq![digit_char(d as int)],
{
    proof {
        reveal_strlit("0");
        reveal_strlit("1");
        reveal_strlit("2");
        reveal_strlit("3");
        reveal_strlit("4");
        reveal_strlit("5");
        reveal_strlit("6");
        reveal_strlit("7");
        reveal_strlit("8");
        reveal_strlit("9");
    }
    let text = if d == 0 {
        "0"
    } else if d == 1 {
        "1"
    } else if d == 2 {
        "2"
    } else if d == 3 {
        "3"
    } else if d == 4 {
        "4"
    } else if d == 5 {
        "5"
    } else if d == 6 {
        "6"
    } else if d == 7 {
        "7"
    } else if d == 8 {
        "8"
    } else {
        "9"
    };
    assert(text@ =~= seq![digit_char(d as int)]);
    text
}

/// Appends the digits of `n` to `out`.
fn push_decimal(out: &mut String, n: u64)
    ensures
        final(out)@ == old(out)@ + decimal(n as nat),
    decreases n,
{
    if n >= 10 {
        push_decimal(out, n / 10);
    }
    out.append(digit_text(n % 10));
    assert(final(out)@ =~= old(out)@ + decimal(n as nat));
}

/// The literal that stands for `value`.
pub fn format_integer(value: i64) -> (text: String)
    ensures
        text@ == integer_text(value as int),
{
    let mut text = String::new();
    let magnitude: u64 = if value < 0 {
        proof {
            reveal_strlit("-");
        }
        text.append("-");
        if value == i64::MIN {
            9223372036854775808u64
        } else {
            (-value) as u64
        }
    } else {
        value as u64
    };
    push_decimal(&mut text, magnitude);
    assert(text@ =~= integer_text(value as int));
    text
}

/// The digits of a number are a natural, and stand for that number.
pub proof fn lemma_decimal(n: nat)
    ensures
        is_natural(decimal(n)),
        natural_value(decimal(n)) == n,
        decimal(n)[0] == '0' <==> n == 0,
    decreases n,
{
    let text = decimal(n);
    if n < 10 {
        assert(text.drop_last() =~= Seq::<char>::empty());
        assert(natural_value(text.drop_last()) == 0);
    } else {
        lemma_decimal(n / 10);
        let front = decimal(n / 10);
        assert(text.drop_last() =~= front);
        assert(text[0] == front[0]);
        assert forall|i: int| 0 <= i < text.len() implies is_digit(#[trigger] text[i]) by {
            if i < front.len() {
                assert(text[i] == front[i]);
            }
        }
    }
}

/// Writing an integer and reading it back gives the integer.
pub proof fn lemma_integer_text(i: int)
    ensures
        is_integer_literal(integer_text(i)),
        integer_value(integer_text(i)) == i,
        exact_integer(integer_text(i)) == Some(i),
{
    if i < 0 {
        lemma_decimal((-i) as nat);
        assert(integer_text(i).skip(1) =~= decimal((-i) as nat));
    } else {
        lemma_decimal(i as nat);
    }
}

/// An integer literal is a number literal.
pub proof fn lemma_integer_is_number(literal: Seq<char>)
    requires
        is_integer_literal(literal),
    ensures
        is_number_literal(literal),
{
    assert(literal.subrange(0, literal.len() as int) =~= literal);
    assert(splits_as_number(literal, literal.len() as int, literal.len() as int));
}

/// Among the number literals, the integer literals are those that have
/// neither a fractional nor an exponent part.
pub proof fn lemma_integer_is_bare_number(literal: Seq<char>)
    ensures
        is_integer_literal(literal) <==> is_number_literal(literal) && !has_fraction_or_exponent(
            literal,
        ),
{
    if is_integer_literal(literal) {
        lemma_integer_is_number(literal);
        assert forall|i: int| 0 <= i < literal.len() implies !(literal[i] == '.' || literal[i]
            == 'e' || literal[i] == 'E') by {
            if literal[0] == '-' {
                if i > 0 {
                    assert(literal.skip(1)[i - 1] == literal[i]);
                    assert(is_digit(literal.skip(1)[i - 1]));
                }
            } else {
                assert(is_digit(literal[i]));
            }
        }
    }
    if is_number_literal(literal) && !has_fraction_or_exponent(literal) {
        let (i, j) = choose|i: int, j: int| splits_as_number(literal, i, j);
        lemma_split_parts(literal, i, j);
        assert(literal.subrange(0, literal.len() as int) =~= literal);
    }
}

} // verus!
