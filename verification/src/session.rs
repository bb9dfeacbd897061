//! What a prompt keeps between two lines: the tape and the pointer.
//!
//! Each line that holds a program runs in a [`Chunk`] of its own, on a copy
//! of the tape. Only a run that reached the end of its program is taken
//! over; any other leaves the session as it was before the line.

use vstd::prelude::*;
use crate::chunk::Chunk;
use crate::machine::Machine;
use crate::text::{chars_trim_end, trim_end};
use crate::tokenizer::{scan, tokenizer};

verus! {

/// What a line typed at the prompt asks for.
#[derive(Debug, Clone, Copy, PartialEq, Eq, Structural)]
pub enum Command {
    /// Nothing: the line is empty.
    Empty,
    /// The help text.
    Help,
    /// The copyright notice.
    Copyright,
    /// The licence note.
    License,
    /// The end of the session.
    Exit,
    /// The line is a program to run.
    Program,
}

/// What `line` asks for. White space at its end does not count.
pub open spec fn command(line: Seq<char>) -> Command {
    let text = trim_end(line);
    if text.len() == 0 {
        Command::Empty
    } else if text == seq!['h', 'e', 'l', 'p'] {
        Command::Help
    } else if text == seq!['c', 'o', 'p', 'y', 'r', 'i', 'g', 'h', 't'] {
        Command::Copyright
    } else if text == seq!['l', 'i', 'c', 'e', 'n', 's', 'e'] {
        Command::License
    } else if text == seq!['e', 'x', 'i', 't'] {
        Command::Exit
    } else {
        Command::Program
    }
}

fn is_word(text: &Vec<char>, word: &Vec<char>) -> (same: bool)
    ensures
        same == (text@ == word@),
{
    if text.len() != word.len() {
        return false;
    }
    let mut i: usize = 0;
    while i < text.len()
        invariant
            i <= text.len() == word.len(),
            text@.take(i as int) == word@.take(i as int),
        decreases text.len() - i,
    {
        if text[i] != word[i] {
            return false;
        }
        i = i + 1;
    }
    proof {
        assert(text@.take(i as int) == text@);
        assert(word@.take(i as int) == word@);
    }
    true
}

/// Tells what a line typed at the prompt asks for.
pub fn command_of(line: &str) -> (asked: Command)
    ensures
        asked == command(line@),
{
    let text = chars_trim_end(line);
    if text.len() == 0 {
        Command::Empty
    } else if is_word(&text, &vec!['h', 'e', 'l', 'p']) {
        Command::Help
    } else if is_word(&text, &vec!['c', 'o', 'p', 'y', 'r', 'i', 'g', 'h', 't']) {
        Command::Copyright
    } else if is_word(&text, &vec!['l', 'i', 'c', 'e', 'n', 's', 'e']) {
        Command::License
    } else if is_word(&text, &vec!['e', 'x', 'i', 't']) {
        Command::Exit
    } else {
        Command::Program
    }
}

/// The tape and the pointer, as a session keeps them.
pub ghost struct Tape {
    /// The cells.
    pub memory: Seq<i32>,
    /// The address of the current cell.
    pub p: i32,
}

impl Tape {
    /// The tape after a run on it has come back: that of the run where the
    /// run reached the end of its program, else the tape as it was.
    pub open spec fn finish(self, run: Machine) -> Tape {
        if run.finished() {
            Tape { memory: run.memory, p: run.p }
        } else {
            self
        }
    }
}

/// The state that a prompt carries from line to line.
pub struct Session {
    memory: Vec<i32>,
    p: i32,
}

impl View for Session {
    type V = Tape;

    closed spec fn view(&self) -> Tape {
        Tape { memory: self.memory@, p: self.p }
    }
}

impl Session {
    /// A session on a tape of `size` cells that all hold zero, with the
    /// pointer on cell 0.
    pub fn new(size: usize) -> (session: Session)
        ensures
            session@ == (Tape { memory: Seq::new(size as nat, |i: int| 0i32), p: 0 }),
    {
        let memory = vec![0i32; size];
        assert(memory@ == Seq::new(size as nat, |i: int| 0i32));
        Session { memory, p: 0 }
    }

    /// The tape.
    pub fn memory(&self) -> (memory: &Vec<i32>)
        ensures
            memory@ == self@.memory,
    {
        &self.memory
    }

    /// The pointer.
    pub fn pointer(&self) -> (p: i32)
        ensures
            p == self@.p,
    {
        self.p
    }

    /// Begins the run of a line: a fresh run of its tokens, on a copy of the
    /// session's tape and with its pointer. A line that is no program gives
    /// no run.
    pub fn start(&self, line: &str) -> (run: Option<Chunk>)
        ensures
            match run {
                Some(chunk) => scan(line@).unknown is None && chunk@ == Machine::start(
                    scan(line@).tokens,
                    self@.memory,
                    self@.p,
                    true,
                ),
                None => scan(line@).unknown is Some,
            },
    {
        let (ok, tokens) = tokenizer(line);
        if ok {
            let memory = self.memory.clone();
            Some(Chunk::with_state(tokens, memory, self.p, true))
        } else {
            None
        }
    }

    /// Ends the run of a line. The tape and the pointer of a run that
    /// reached the end of its program become the session's. A run that was
    /// given up, or that has not come to its end, changes nothing.
    pub fn finish(&mut self, chunk: Chunk)
        ensures
            final(self)@ == old(self)@.finish(chunk@),
            chunk@.has_err() ==> final(self)@ == old(self)@,
    {
        if chunk.finished() {
            self.p = chunk.pointer();
            self.memory = chunk.into_memory();
        }
    }
}

} // verus!
