//! From source text to tokens.
//!
//! The scanner reads one character at a time and never looks ahead. What it
//! has seen so far is summed up in a [`Scan`]; [`scan_char`] says how one
//! more character changes it, and [`scan`] folds that over a whole text.

use vstd::prelude::*;
use crate::text::chars_of;
use crate::token::{Token, TypeDef};

verus! {

/// The instruction that a character stands for, if it stands for one.
pub open spec fn symbol(c: char) -> Option<TypeDef> {
    if c == '<' {
        Some(TypeDef::MoveLeft)
    } else if c == '>' {
        Some(TypeDef::MoveRight)
    } else if c == '+' {
        Some(TypeDef::Increment)
    } else if c == '-' {
        Some(TypeDef::Decrement)
    } else if c == '[' {
        Some(TypeDef::LoopStart)
    } else if c == ']' {
        Some(TypeDef::LoopEnd)
    } else if c == '.' {
        Some(TypeDef::PrintChar)
    } else if c == ',' {
        Some(TypeDef::ReadInput)
    } else if c == '!' {
        Some(TypeDef::DumpMemory)
    } else if c == '*' {
        Some(TypeDef::PrintInt)
    } else {
        None
    }
}

/// Space, tab and carriage return: skipped without any effect.
pub open spec fn is_blank(c: char) -> bool {
    c == ' ' || c == '\t' || c == '\r'
}

/// The line after `line`. The counter stops at `i32::MAX`.
pub open spec fn next_line(line: i32) -> i32 {
    if line < i32::MAX {
        (line + 1) as i32
    } else {
        line
    }
}

/// What the scanner has made of the characters read so far.
pub ghost struct Scan {
    /// The tokens found, in source order.
    pub tokens: Seq<Token>,
    /// The line of the next character, counted from 1.
    pub line: i32,
    /// Whether the next character is inside a `#` comment.
    pub in_comment: bool,
    /// The character that ended the scan, if one did.
    pub unknown: Option<char>,
}

/// The scanner before the first character.
pub open spec fn scan_start() -> Scan {
    Scan { tokens: Seq::empty(), line: 1, in_comment: false, unknown: None }
}

/// The scanner after one more character.
pub open spec fn scan_char(s: Scan, c: char) -> Scan {
    if s.unknown is Some {
        s
    } else if c == '\n' {
        Scan { line: next_line(s.line), in_comment: false, ..s }
    } else if s.in_comment || is_blank(c) {
        s
    } else if c == '#' {
        Scan { in_comment: true, ..s }
    } else {
        match symbol(c) {
            Some(typedef) => Scan { tokens: s.tokens.push(Token { typedef, line: s.line }), ..s },
            None => Scan { unknown: Some(c), ..s },
        }
    }
}

/// The scanner `s` after the further characters `more`.
pub open spec fn scan_on(s: Scan, more: Seq<char>) -> Scan
    decreases more.len(),
{
    if more.len() == 0 {
        s
    } else {
        scan_char(scan_on(s, more.drop_last()), more.last())
    }
}

/// The scanner after the whole of `text`.
pub open spec fn scan(text: Seq<char>) -> Scan {
    scan_on(scan_start(), text)
}

/// A text may be scanned in two parts: the second part is scanned on from
/// where the first has left the scanner.
pub proof fn law_scan_in_parts(s: Scan, first: Seq<char>, second: Seq<char>)
    ensures
        scan_on(s, first + second) == scan_on(scan_on(s, first), second),
    decreases second.len(),
{
    if second.len() > 0 {
        assert((first + second).drop_last() == first + second.drop_last());
        law_scan_in_parts(s, first, second.drop_last());
    }
}

/// Once a character has ended the scan, nothing after it is looked at.
pub proof fn law_scan_stops(s: Scan, more: Seq<char>)
    requires
        s.unknown is Some,
    ensures
        scan_on(s, more) == s,
    decreases more.len(),
{
    if more.len() > 0 {
        law_scan_stops(s, more.drop_last());
    }
}

/// Space, tab and carriage return leave the scanner as it is.
pub proof fn law_blanks_are_skipped(s: Scan, c: char)
    requires
        is_blank(c),
    ensures
        scan_char(s, c) == s,
{
}

/// A comment contributes nothing: `#` and what follows it on its line only
/// make the scanner wait for the newline, so that with the newline they
/// come to the same as the newline alone.
pub proof fn law_comment_counts_as_newline(s: Scan, comment: Seq<char>)
    requires
        forall|i: int| 0 <= i < comment.len() ==> comment[i] != '\n',
    ensures
        scan_on(s, seq!['#'] + comment) == if s.unknown is Some {
            s
        } else {
            Scan { in_comment: true, ..s }
        },
        scan_on(s, seq!['#'] + comment + seq!['\n']) == scan_char(s, '\n'),
    decreases comment.len(),
{
    let opened = seq!['#'] + comment;
    if comment.len() == 0 {
        assert(opened.drop_last() == Seq::<char>::empty());
        assert(scan_on(s, Seq::<char>::empty()) == s);
    } else {
        law_comment_counts_as_newline(s, comment.drop_last());
        assert(opened.drop_last() == seq!['#'] + comment.drop_last());
    }
    assert((opened + seq!['\n']).drop_last() == opened);
}

/// A text that writes one instruction `n` times gives `n` tokens of its
/// kind, all on line 1.
pub proof fn law_repeated_symbol(c: char, n: nat)
    requires
        symbol(c) is Some,
    ensures
        scan(Seq::new(n, |i: int| c)) == (Scan {
            tokens: Seq::new(n, |i: int| Token { typedef: symbol(c)->0, line: 1 }),
            ..scan_start()
        }),
    decreases n,
{
    let text = Seq::new(n, |i: int| c);
    let tokens = Seq::new(n, |i: int| Token { typedef: symbol(c)->0, line: 1 });
    if n == 0 {
        assert(tokens == Seq::<Token>::empty());
    } else {
        let shorter = (n - 1) as nat;
        law_repeated_symbol(c, shorter);
        assert(text.drop_last() == Seq::new(shorter, |i: int| c));
        assert(tokens == Seq::new(shorter, |i: int| Token { typedef: symbol(c)->0, line: 1 }).push(
            Token { typedef: symbol(c)->0, line: 1 },
        ));
    }
}

fn symbol_of(c: char) -> (kind: Option<TypeDef>)
    ensures
        kind == symbol(c),
{
    match c {
        '<' => Some(TypeDef::MoveLeft),
        '>' => Some(TypeDef::MoveRight),
        '+' => Some(TypeDef::Increment),
        '-' => Some(TypeDef::Decrement),
        '[' => Some(TypeDef::LoopStart),
        ']' => Some(TypeDef::LoopEnd),
        '.' => Some(TypeDef::PrintChar),
        ',' => Some(TypeDef::ReadInput),
        '!' => Some(TypeDef::DumpMemory),
        '*' => Some(TypeDef::PrintInt),
        _ => None,
    }
}

/// Scans `source` up to its end or to the first character that is neither
/// an instruction, nor blank, nor inside a comment.
fn scan_text(source: &str) -> (found: (Vec<Token>, Option<char>))
    ensures
        found.0@ == scan(source@).tokens,
        found.1 == scan(source@).unknown,
{
    let chars = chars_of(source);
    let mut tokens: Vec<Token> = Vec::new();
    let mut line: i32 = 1;
    let mut in_comment = false;
    let mut i: usize = 0;
    while i < chars.len()
        invariant
            i <= chars.len(),
            chars@ == source@,
            scan(chars@.take(i as int)) == (Scan {
                tokens: tokens@,
                line,
                in_comment,
                unknown: None,
            }),
        decreases chars.len() - i,
    {
        let c = chars[i];
        proof {
            assert(chars@.take(i + 1).drop_last() == chars@.take(i as int));
        }
        if c == '\n' {
            if line < i32::MAX {
                line = line + 1;
            }
            in_comment = false;
        } else if in_comment || c == ' ' || c == '\t' || c == '\r' {
        } else if c == '#' {
            in_comment = true;
        } else {
            match symbol_of(c) {
                Some(typedef) => {
                    tokens.push(Token::new(typedef, line));
                },
                None => {
                    proof {
                        let read = chars@.take(i + 1);
                        let rest = chars@.skip(i + 1);
                        assert(chars@ == read + rest);
                        law_scan_in_parts(scan_start(), read, rest);
                        law_scan_stops(scan(read), rest);
                    }
                    return (tokens, Some(c));
                },
            }
        }
        i = i + 1;
    }
    proof {
        assert(chars@.take(i as int) == chars@);
    }
    (tokens, None)
}

/// Turns source text into tokens.
///
/// The flag tells whether the whole text was accepted. Where it is `false`,
/// the list holds the tokens found before the offending character and is no
/// program to run.
pub fn tokenizer(source: &str) -> (res: (bool, Vec<Token>))
    ensures
        res.0 == (scan(source@).unknown is None),
        res.1@ == scan(source@).tokens,
{
    let (tokens, unknown) = scan_text(source);
    (unknown.is_none(), tokens)
}

/// The character at which [`tokenizer`] gives up on `source`, if there is one.
pub fn unknown_char(source: &str) -> (c: Option<char>)
    ensures
        c == scan(source@).unknown,
{
    scan_text(source).1
}

} // verus!
