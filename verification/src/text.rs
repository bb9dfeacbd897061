//! Lines of console input: trimming, decimal numbers, and the reply that
//! asks for more of a dump.
//!
//! A line is read as the standard library reads it: [`white_space`] is what
//! `char::is_whitespace` tells, [`trim`] and [`trim_end`] are what the
//! methods of `str` with these names give, and [`number`] is what
//! `str::parse::<i32>` accepts.

use vstd::prelude::*;

verus! {

/// The characters with the Unicode property `White_Space`.
pub open spec fn white_space(c: char) -> bool {
    let n = c as int;
    ||| 0x09 <= n <= 0x0d
    ||| n == 0x20
    ||| n == 0x85
    ||| n == 0xa0
    ||| n == 0x1680
    ||| 0x2000 <= n <= 0x200a
    ||| n == 0x2028
    ||| n == 0x2029
    ||| n == 0x202f
    ||| n == 0x205f
    ||| n == 0x3000
}

/// `text` without the white space at its start.
pub open spec fn trim_start(text: Seq<char>) -> Seq<char>
    decreases text.len(),
{
    if text.len() > 0 && white_space(text.first()) {
        trim_start(text.drop_first())
    } else {
        text
    }
}

/// `text` without the white space at its end.
pub open spec fn trim_end(text: Seq<char>) -> Seq<char>
    decreases text.len(),
{
    if text.len() > 0 && white_space(text.last()) {
        trim_end(text.drop_last())
    } else {
        text
    }
}

/// `text` without the white space at either end.
pub open spec fn trim(text: Seq<char>) -> Seq<char> {
    trim_end(trim_start(text))
}

/// The decimal digits `0` to `9`.
pub open spec fn is_digit(c: char) -> bool {
    '0' <= c <= '9'
}

/// The value of a decimal digit.
pub open spec fn digit(c: char) -> int {
    c as int - '0' as int
}

/// The number that a string of decimal digits writes.
pub open spec fn decimal(digits: Seq<char>) -> int
    decreases digits.len(),
{
    if digits.len() == 0 {
        0
    } else {
        10 * decimal(digits.drop_last()) + digit(digits.last())
    }
}

/// The value of one or more decimal digits; nothing else has a value.
pub open spec fn unsigned(text: Seq<char>) -> Option<int> {
    if text.len() > 0 && forall|i: int| 0 <= i < text.len() ==> is_digit(#[trigger] text[i]) {
        Some(decimal(text))
    } else {
        None
    }
}

/// The value of one or more decimal digits behind an optional `+` or `-`.
pub open spec fn signed(text: Seq<char>) -> Option<int> {
    if text.len() > 0 && text[0] == '-' {
        match unsigned(text.drop_first()) {
            Some(v) => Some(-v),
            None => None,
        }
    } else if text.len() > 0 && text[0] == '+' {
        unsigned(text.drop_first())
    } else {
        unsigned(text)
    }
}

/// The 32-bit number that `text` writes, if it writes one.
pub open spec fn number(text: Seq<char>) -> Option<i32> {
    match signed(text) {
        Some(v) => if i32::MIN <= v <= i32::MAX {
            Some(v as i32)
        } else {
            None
        },
        None => None,
    }
}

/// The characters of `s`, in order.
pub fn chars_of(s: &str) -> (v: Vec<char>)
    ensures
        v@ == s@,
{
    let mut v: Vec<char> = Vec::new();
    for c in it: s.chars()
        invariant
            v@ == it.seq().take(it.index()),
    {
        v.push(c);
    }
    v
}

/// Whether `c` is white space.
pub fn is_whitespace(c: char) -> (b: bool)
    ensures
        b == white_space(c),
{
    let n = c as u32;
    (0x09 <= n && n <= 0x0d) || n == 0x20 || n == 0x85 || n == 0xa0 || n == 0x1680 || (0x2000 <= n
        && n <= 0x200a) || n == 0x2028 || n == 0x2029 || n == 0x202f || n == 0x205f || n == 0x3000
}

/// Where the text begins once the white space at its start is left out.
fn start_of(chars: &Vec<char>) -> (start: usize)
    ensures
        start <= chars.len(),
        chars@.subrange(start as int, chars.len() as int) == trim_start(chars@),
{
    let mut start: usize = 0;
    proof {
        assert(chars@.subrange(0, chars.len() as int) == chars@);
    }
    while start < chars.len() && is_whitespace(chars[start])
        invariant
            start <= chars.len(),
            trim_start(chars@.subrange(start as int, chars.len() as int)) == trim_start(chars@),
        decreases chars.len() - start,
    {
        proof {
            let rest = chars@.subrange(start as int, chars.len() as int);
            assert(rest.drop_first() == chars@.subrange(start + 1, chars.len() as int));
        }
        start = start + 1;
    }
    start
}

/// Where the text from `start` on ends once the white space at its end is
/// left out.
fn end_of(chars: &Vec<char>, start: usize) -> (end: usize)
    requires
        start <= chars.len(),
    ensures
        start <= end <= chars.len(),
        chars@.subrange(start as int, end as int) == trim_end(
            chars@.subrange(start as int, chars.len() as int),
        ),
{
    let mut end: usize = chars.len();
    while start < end && is_whitespace(chars[end - 1])
        invariant
            start <= end <= chars.len(),
            trim_end(chars@.subrange(start as int, end as int)) == trim_end(
                chars@.subrange(start as int, chars.len() as int),
            ),
        decreases end,
    {
        proof {
            let rest = chars@.subrange(start as int, end as int);
            assert(rest.drop_last() == chars@.subrange(start as int, end - 1));
        }
        end = end - 1;
    }
    end
}

/// The value of the digit `c`, or `None` where `c` is no digit.
fn digit_of(c: char) -> (d: Option<i64>)
    ensures
        d == if is_digit(c) {
            Some(digit(c) as i64)
        } else {
            None::<i64>
        },
        is_digit(c) ==> 0 <= digit(c) <= 9,
{
    if '0' <= c && c <= '9' {
        Some((c as u32 - '0' as u32) as i64)
    } else {
        None
    }
}

/// Reads the digits `chars[from..to]`. The result is their value where that
/// lies within `limit`, and `limit + 1` where it lies beyond.
fn digits_of(chars: &Vec<char>, from: usize, to: usize, limit: i64) -> (value: Option<i64>)
    requires
        from <= to <= chars.len(),
        0 <= limit <= 0x8000_0000,
    ensures
        value == match unsigned(chars@.subrange(from as int, to as int)) {
            Some(v) => Some(
                if v <= limit {
                    v as i64
                } else {
                    (limit + 1) as i64
                },
            ),
            None => None,
        },
        unsigned(chars@.subrange(from as int, to as int)) matches Some(v) ==> 0 <= v,
{
    let ghost digits = chars@.subrange(from as int, to as int);
    if from == to {
        return None;
    }
    let mut value: i64 = 0;
    let mut k: usize = from;
    while k < to
        invariant
            from <= k <= to <= chars.len(),
            0 <= limit <= 0x8000_0000,
            digits == chars@.subrange(from as int, to as int),
            forall|i: int| 0 <= i < k - from ==> is_digit(#[trigger] digits[i]),
            0 <= decimal(digits.take(k - from)),
            value == if decimal(digits.take(k - from)) <= limit {
                decimal(digits.take(k - from))
            } else {
                limit + 1
            },
        decreases to - k,
    {
        proof {
            assert(digits.take(k - from + 1).drop_last() == digits.take(k - from));
            assert(digits[k - from] == chars@[k as int]);
        }
        match digit_of(chars[k]) {
            Some(d) => {
                if value <= limit {
                    value = 10 * value + d;
                    if value > limit {
                        value = limit + 1;
                    }
                }
            },
            None => {
                return None;
            },
        }
        k = k + 1;
    }
    proof {
        assert(digits.take(to - from) == digits);
    }
    Some(value)
}

/// Reads a line as a number: white space at either end is left out, and what
/// remains must be decimal digits behind an optional sign, with a value that
/// fits in 32 bits.
pub fn parse_number(line: &str) -> (n: Option<i32>)
    ensures
        n == number(trim(line@)),
{
    let chars = chars_of(line);
    let start = start_of(&chars);
    let end = end_of(&chars, start);
    if start == end {
        return None;
    }
    let first = chars[start];
    let negative = first == '-';
    let from = if negative || first == '+' {
        start + 1
    } else {
        start
    };
    let limit: i64 = if negative {
        0x8000_0000
    } else {
        0x7fff_ffff
    };
    proof {
        let text = chars@.subrange(start as int, end as int);
        assert(text.drop_first() == chars@.subrange(start + 1, end as int));
    }
    match digits_of(&chars, from, end, limit) {
        Some(v) => if v > limit {
            None
        } else if negative {
            Some((-v) as i32)
        } else {
            Some(v as i32)
        },
        None => None,
    }
}

/// The characters of `line`, white space at its end left out.
pub fn chars_trim_end(line: &str) -> (text: Vec<char>)
    ensures
        text@ == trim_end(line@),
{
    let mut chars = chars_of(line);
    let end = end_of(&chars, 0);
    proof {
        assert(chars@.subrange(0, chars.len() as int) == chars@);
    }
    chars.truncate(end);
    chars
}

/// Whether a line asks for the next part of a dump: it does where it reads
/// `n`, white space at its end left out.
pub fn is_next(line: &str) -> (next: bool)
    ensures
        next == (trim_end(line@) == seq!['n']),
{
    let text = chars_trim_end(line);
    proof {
        assert(text.len() == 1 && text@[0] == 'n' ==> text@ =~= seq!['n']);
    }
    text.len() == 1 && text[0] == 'n'
}

} // verus!
