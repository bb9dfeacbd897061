//! Instruction kinds and tokens.

use vstd::prelude::*;

verus! {

/// The kind of an instruction.
#[derive(Debug, Clone, Copy, PartialEq, Eq, Structural)]
pub enum TypeDef {
    /// `<`: move the pointer one cell to the left.
    MoveLeft,
    /// `>`: move the pointer one cell to the right.
    MoveRight,
    /// `+`: add one to the current cell.
    Increment,
    /// `-`: subtract one from the current cell.
    Decrement,
    /// `[`: start of a loop.
    LoopStart,
    /// `]`: end of a loop.
    LoopEnd,
    /// `.`: print the current cell as a character.
    PrintChar,
    /// `*`: print the current cell as a decimal number.
    PrintInt,
    /// `,`: read a number into the current cell.
    ReadInput,
    /// `!`: dump the tape.
    DumpMemory,
}

/// Whether two instruction kinds are the same kind.
pub fn typedef_eq(a: &TypeDef, b: &TypeDef) -> (same: bool)
    ensures
        same == (*a == *b),
{
    *a == *b
}

/// An instruction together with the source line it was read from.
#[derive(Debug, Clone, Copy, PartialEq, Eq, Structural)]
pub struct Token {
    pub typedef: TypeDef,
    pub line: i32,
}

impl Token {
    pub fn new(typedef: TypeDef, line: i32) -> (token: Token)
        ensures
            token == (Token { typedef, line }),
    {
        Token { typedef, line }
    }
}

} // verus!
