//! Text: decimal numerals written and read, lines, prefixes, and the text of
//! received bytes.

use vstd::prelude::*;
use vstd::string::StringExecFns;

verus! {

/// The character that stands for the digit `d`, for `0 <= d <= 9`.
pub open spec fn digit_char(d: int) -> char {
    if d == 0 {
        '0'
    } else if d == 1 {
        '1'
    } else if d == 2 {
        '2'
    } else if d == 3 {
        '3'
    } else if d == 4 {
        '4'
    } else if d == 5 {
        '5'
    } else if d == 6 {
        '6'
    } else if d == 7 {
        '7'
    } else if d == 8 {
        '8'
    } else {
        '9'
    }
}

/// The decimal numeral of a natural number, without leading zeros.
pub open spec fn decimal_digits(n: nat) -> Seq<char>
    decreases n,
{
    if n < 10 {
        seq![digit_char(n as int)]
    } else {
        decimal_digits(n / 10).push(digit_char((n % 10) as int))
    }
}

/// The decimal numeral of an integer: a minus sign before the digits of a
/// negative number, no sign otherwise.
pub open spec fn decimal(n: int) -> Seq<char> {
    if n < 0 {
        seq!['-'] + decimal_digits((-n) as nat)
    } else {
        decimal_digits(n as nat)
    }
}

fn digit_str(d: u64) -> (s: &'static str)
    requires
        d < 10,
    ensures
        s@ == seq![digit_char(d as int)],
{
    proof {
        reveal_strlit("0");
        reveal_strlit("1");
        reveal_strlit("2");
        reveal_strlit("3");
        reveal_strlit("4");
        reveal_strlit("5");
        reveal_strlit("6");
        reveal_strlit("7");
        reveal_strlit("8");
        reveal_strlit("9");
    }
    if d == 0 {
        "0"
    } else if d == 1 {
        "1"
    } else if d == 2 {
        "2"
    } else if d == 3 {
        "3"
    } else if d == 4 {
        "4"
    } else if d == 5 {
        "5"
    } else if d == 6 {
        "6"
    } else if d == 7 {
        "7"
    } else if d == 8 {
        "8"
    } else {
        "9"
    }
}

fn push_digits(out: &mut String, n: u64)
    ensures
        final(out)@ == old(out)@ + decimal_digits(n as nat),
    decreases n,
{
    if n >= 10 {
        push_digits(out, n / 10);
    }
    out.append(digit_str(n % 10));
}

/// Writes `n` in decimal.
pub fn decimal_string(n: i64) -> (s: String)
    ensures
        s@ == decimal(n as int),
{
    let mut s = String::new();
    if n < 0 {
        s.append("-");
        proof {
            reveal_strlit("-");
        }
        let magnitude: u64 = ((-(n + 1)) as u64) + 1;
        push_digits(&mut s, magnitude);
    } else {
        push_digits(&mut s, n as u64);
    }
    s
}

/// Index of the first occurrence of `c` in `s`, or `s.len()` where there is none.
pub open spec fn first_index(s: Seq<char>, c: char) -> int
    decreases s.len(),
{
    if s.len() == 0 || s[0] == c {
        0
    } else {
        1 + first_index(s.skip(1), c)
    }
}

/// `first_index` is the only position that holds `c` with no `c` before it, or
/// the length where `c` does not occur.
pub proof fn lemma_first_index(s: Seq<char>, c: char, k: int)
    requires
        0 <= k <= s.len(),
        forall|j: int| 0 <= j < k ==> s[j] != c,
        k == s.len() || s[k] == c,
    ensures
        first_index(s, c) == k,
    decreases k,
{
    if k > 0 {
        lemma_first_index(s.skip(1), c, k - 1);
    }
}

/// The part of `s` before its first `c`: all of `s` where `c` does not occur.
pub open spec fn prefix_before(s: Seq<char>, c: char) -> Seq<char> {
    s.take(first_index(s, c))
}

/// Copies the part of `s` that stands before its first `c`.
pub fn take_before(s: &str, c: char) -> (r: String)
    ensures
        r@ == prefix_before(s@, c),
{
    let len = s.unicode_len();
    let mut k: usize = 0;
    let mut found = false;
    for x in it: s.chars()
        invariant
            it.seq() == s@,
            len == s@.len(),
            k <= it.index(),
            !found ==> k == it.index(),
            found ==> k < s@.len() && s@[k as int] == c,
            forall|j: int| 0 <= j < k ==> s@[j] != c,
    {
        if !found {
            if x == c {
                found = true;
            } else {
                k = k + 1;
            }
        }
    }
    proof {
        lemma_first_index(s@, c, k as int);
    }
    let head = s.substring_char(0, k);
    String::from_str(head)
}

/// A line without its terminator: one carriage return directly before the line
/// feed belongs to the terminator.
pub open spec fn strip_cr(line: Seq<char>) -> Seq<char> {
    if line.len() > 0 && line.last() == '\r' {
        line.drop_last()
    } else {
        line
    }
}

/// The lines of a text. A line ends at a line feed, or at a carriage return and
/// line feed together; the terminator is not part of the line. Text after the
/// last line feed is a line of its own, kept as it stands; an empty text has no
/// lines, and a text that ends in a terminator has no empty line after it.
pub open spec fn lines(s: Seq<char>) -> Seq<Seq<char>>
    decreases s.len(),
{
    if s.len() == 0 {
        Seq::empty()
    } else {
        let k = first_index(s, '\n');
        if 0 <= k < s.len() {
            seq![strip_cr(s.take(k))] + lines(s.skip(k + 1))
        } else {
            seq![s]
        }
    }
}

/// The lines held by a vector of string slices.
pub open spec fn line_views(v: Seq<&str>) -> Seq<Seq<char>> {
    Seq::new(v.len(), |i: int| v[i]@)
}

/// Splits a text into its lines.
pub fn split_lines<'a>(s: &'a str) -> (out: Vec<&'a str>)
    ensures
        line_views(out@) == lines(s@),
{
    let len = s.unicode_len();
    let mut out: Vec<&'a str> = Vec::new();
    let mut start: usize = 0;
    let mut i: usize = 0;
    let mut after_cr = false;
    proof {
        assert(s@.skip(0) =~= s@);
    }
    for x in it: s.chars()
        invariant
            it.seq() == s@,
            len == s@.len(),
            i == it.index(),
            start <= i <= len,
            after_cr == (start < i && s@[i - 1] == '\r'),
            forall|j: int| start <= j < i ==> s@[j] != '\n',
            line_views(out@) + lines(s@.skip(start as int)) == lines(s@),
    {
        if x == '\n' {
            let end = if after_cr {
                i - 1
            } else {
                i
            };
            let line = s.substring_char(start, end);
            proof {
                let rest = s@.skip(start as int);
                let k = i - start;
                lemma_first_index(rest, '\n', k);
                assert(rest.skip(k + 1) =~= s@.skip(i + 1));
                assert(line@ =~= strip_cr(rest.take(k)));
            }
            out.push(line);
            start = i + 1;
            after_cr = false;
        } else {
            after_cr = x == '\r';
        }
        i = i + 1;
    }
    if start < len {
        let line = s.substring_char(start, len);
        proof {
            let rest = s@.skip(start as int);
            lemma_first_index(rest, '\n', rest.len() as int);
        }
        out.push(line);
    }
    out
}

/// Whether `c` is one of the ten ASCII digits.
pub open spec fn is_digit(c: char) -> bool {
    48 <= c as u32 <= 57
}

/// Whether every character of `s` is an ASCII digit.
pub open spec fn all_digits(s: Seq<char>) -> bool {
    forall|i: int| 0 <= i < s.len() ==> is_digit(#[trigger] s[i])
}

/// The number that a sequence of ASCII digits writes in decimal.
pub open spec fn digits_value(s: Seq<char>) -> nat
    decreases s.len(),
{
    if s.len() == 0 {
        0
    } else {
        (digits_value(s.drop_last()) * 10 + (s.last() as u32 - 48)) as nat
    }
}

/// Length of the sign that a numeral starts with: 0 or 1.
pub open spec fn sign_len(s: Seq<char>) -> int {
    if s.len() > 0 && (s[0] == '-' || s[0] == '+') {
        1
    } else {
        0
    }
}

/// The integer that `s` writes: an optional `+` or `-`, then one or more ASCII
/// digits and nothing else. `None` for every other text.
pub open spec fn signed_decimal(s: Seq<char>) -> Option<int> {
    let body = s.skip(sign_len(s));
    if body.len() > 0 && all_digits(body) {
        if s[0] == '-' {
            Some(-(digits_value(body) as int))
        } else {
            Some(digits_value(body) as int)
        }
    } else {
        None
    }
}

/// The 32-bit integer that `s` writes, where it writes one that fits.
pub open spec fn parse_i32_spec(s: Seq<char>) -> Option<i32> {
    match signed_decimal(s) {
        Some(v) => if i32::MIN <= v <= i32::MAX {
            Some(v as i32)
        } else {
            None
        },
        None => None,
    }
}

proof fn lemma_digits_value_prefix(s: Seq<char>, k: int)
    requires
        0 <= k <= s.len(),
        all_digits(s),
    ensures
        digits_value(s.take(k)) <= digits_value(s),
    decreases s.len() - k,
{
    if k < s.len() {
        let front = s.drop_last();
        lemma_digits_value_prefix(front, k);
        assert(front.take(k) =~= s.take(k));
    } else {
        assert(s.take(k) =~= s);
    }
}

/// Reads a decimal integer as `str::parse::<i32>` does: an optional sign and
/// then digits only, with a value inside the range of `i32`.
pub fn parse_i32(s: &str) -> (r: Option<i32>)
    ensures
        r == parse_i32_spec(s@),
{
    let mut negative = false;
    let mut sign: usize = 0;
    let mut i: usize = 0;
    let len = s.unicode_len();
    let mut valid = true;
    let mut acc: u64 = 0;
    for c in it: s.chars()
        invariant
            it.seq() == s@,
            len == s@.len(),
            i == it.index(),
            i <= len,
            i == 0 ==> sign == 0 && !negative,
            i > 0 ==> sign == sign_len(s@) && negative == (s@[0] == '-'),
            sign <= i,
            !valid ==> parse_i32_spec(s@) is None,
            valid ==> all_digits(s@.subrange(sign as int, i as int)),
            valid ==> acc == digits_value(s@.subrange(sign as int, i as int)),
            acc <= 0x8000_0000,
    {
        let code = c as u32;
        if i == 0 && (c == '-' || c == '+') {
            negative = c == '-';
            sign = 1;
        } else if valid {
            let ghost now = s@.subrange(sign as int, i + 1);
            assert(now.drop_last() =~= s@.subrange(sign as int, i as int));
            if code < 48 || code > 57 {
                valid = false;
                proof {
                    let body = s@.skip(sign_len(s@));
                    assert(body[i - sign] == c);
                }
            } else {
                let next = acc * 10 + (code - 48) as u64;
                if next > 0x8000_0000 {
                    valid = false;
                    proof {
                        let body = s@.skip(sign_len(s@));
                        if all_digits(body) {
                            lemma_digits_value_prefix(body, i + 1 - sign);
                            assert(body.take(i + 1 - sign) =~= now);
                        }
                    }
                } else {
                    acc = next;
                }
            }
        }
        i = i + 1;
    }
    if !valid || i == sign {
        None
    } else if negative {
        Some((-(acc as i64)) as i32)
    } else if acc > 0x7fff_ffff {
        None
    } else {
        Some(acc as i32)
    }
}

/// The digits of a number are digits, and write the number.
pub proof fn lemma_decimal_digits(n: nat)
    ensures
        decimal_digits(n).len() >= 1,
        all_digits(decimal_digits(n)),
        digits_value(decimal_digits(n)) == n,
    decreases n,
{
    if n < 10 {
        assert(digits_value(decimal_digits(n).drop_last()) == 0);
    } else {
        lemma_decimal_digits(n / 10);
        assert(decimal_digits(n).drop_last() =~= decimal_digits(n / 10));
    }
}

/// What is written in decimal reads back as the same number.
pub proof fn lemma_decimal_parses_back(n: i32)
    ensures
        parse_i32_spec(decimal(n as int)) == Some(n),
{
    if n < 0 {
        lemma_decimal_digits((-n) as nat);
        assert(decimal(n as int).skip(1) =~= decimal_digits((-n) as nat));
    } else {
        lemma_decimal_digits(n as nat);
        assert(decimal(n as int).skip(0) =~= decimal(n as int));
    }
}

/// The text that `String::from_utf8_lossy` reads out of bytes.
pub uninterp spec fn lossy_text(bytes: Seq<u8>) -> Seq<char>;

/// `String::from_utf8_lossy`, taken on trust: the text depends on the bytes
/// alone. Which text it is, is not stated here.
#[verifier::external_body]
pub(crate) fn decode_text(bytes: &[u8]) -> (r: String)
    ensures
        r@ == lossy_text(bytes@),
{
    String::from_utf8_lossy(bytes).into_owned()
}

} // verus!
