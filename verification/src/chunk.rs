//! The execution engine: a [`Machine`] in memory.
//!
//! A [`Chunk`] never writes or reads anything itself. Each transition hands
//! back an [`Action`] that says what is to be written or read, and a line
//! that was read comes back in through [`Chunk::input`].

use vstd::prelude::*;
use crate::machine::{
    law_dump_is_on_tape, Action, Fault, LoopScan, Machine, Status, PAGE,
};
use crate::text::{is_next, parse_number};
use crate::token::{typedef_eq, Token, TypeDef};
use crate::tokenizer::{scan, tokenizer};

verus! {

/// A program being run.
pub struct Chunk {
    tokens: Vec<Token>,
    memory: Vec<i32>,
    p: i32,
    pos: usize,
    repl_mode: bool,
    loops: Vec<LoopScan>,
    status: Status,
}

impl View for Chunk {
    type V = Machine;

    closed spec fn view(&self) -> Machine {
        Machine {
            tokens: self.tokens@,
            memory: self.memory@,
            p: self.p,
            pos: self.pos,
            repl_mode: self.repl_mode,
            loops: self.loops@,
            status: self.status,
        }
    }
}

impl Chunk {
    /// A run of `tokens` on a tape of `size` cells that all hold zero, with
    /// the pointer on cell 0.
    pub fn new(tokens: Vec<Token>, size: usize, repl_mode: bool) -> (chunk: Chunk)
        ensures
            chunk@ == Machine::start(tokens@, Seq::new(size as nat, |i: int| 0i32), 0, repl_mode),
    {
        let memory = vec![0i32; size];
        assert(memory@ == Seq::new(size as nat, |i: int| 0i32));
        Chunk { tokens, memory, p: 0, pos: 0, repl_mode, loops: Vec::new(), status: Status::Ready }
    }

    /// A run of the program that `source` writes, on a tape of `size` cells
    /// that all hold zero, with the pointer on cell 0. A text that is no
    /// program gives no run.
    pub fn from_source(source: &str, size: usize, repl_mode: bool) -> (run: Option<Chunk>)
        ensures
            match run {
                Some(chunk) => scan(source@).unknown is None && chunk@ == Machine::start(
                    scan(source@).tokens,
                    Seq::new(size as nat, |i: int| 0i32),
                    0,
                    repl_mode,
                ),
                None => scan(source@).unknown is Some,
            },
    {
        let (ok, tokens) = tokenizer(source);
        if ok {
            Some(Chunk::new(tokens, size, repl_mode))
        } else {
            None
        }
    }

    /// A run of `tokens` on the tape `memory`, with the pointer on cell `p`.
    pub fn with_state(tokens: Vec<Token>, memory: Vec<i32>, p: i32, repl_mode: bool) -> (chunk:
        Chunk)
        ensures
            chunk@ == Machine::start(tokens@, memory@, p, repl_mode),
    {
        Chunk { tokens, memory, p, pos: 0, repl_mode, loops: Vec::new(), status: Status::Ready }
    }

    /// The tape.
    pub fn memory(&self) -> (memory: &Vec<i32>)
        ensures
            memory@ == self@.memory,
    {
        &self.memory
    }

    /// The tape, taken out of the run.
    pub fn into_memory(self) -> (memory: Vec<i32>)
        ensures
            memory@ == self@.memory,
    {
        self.memory
    }

    /// The pointer.
    pub fn pointer(&self) -> (p: i32)
        ensures
            p == self@.p,
    {
        self.p
    }

    /// The cursor.
    pub fn cursor(&self) -> (pos: usize)
        ensures
            pos == self@.pos,
    {
        self.pos
    }

    /// The number of loops being scanned.
    pub fn depth(&self) -> (depth: usize)
        ensures
            depth == self@.loops.len(),
    {
        self.loops.len()
    }

    /// What the run is waiting for.
    pub fn status(&self) -> (status: Status)
        ensures
            status == self@.status,
    {
        self.status
    }

    /// Whether the run was given up.
    pub fn has_err(&self) -> (failed: bool)
        ensures
            failed == self@.has_err(),
    {
        match self.status {
            Status::Failed(_) => true,
            _ => false,
        }
    }

    /// Whether the program has run to its end.
    pub fn finished(&self) -> (done: bool)
        ensures
            done == self@.finished(),
    {
        self.status == Status::Ready && self.loops.len() == 0 && self.pos >= self.tokens.len()
    }

    /// Whether the pointer is on the tape.
    pub fn on_tape(&self) -> (on: bool)
        ensures
            on == self@.on_tape(),
    {
        0 <= self.p && (self.p as usize) < self.memory.len()
    }

    /// The cell at address `pos`.
    pub fn get_memory_value(&self, pos: i32) -> (value: i32)
        requires
            0 <= pos < self@.memory.len(),
        ensures
            value == self@.memory[pos as int],
    {
        self.memory[pos as usize]
    }

    /// Gives the run up for `fault`.
    pub fn handle_err(&mut self, fault: Fault)
        ensures
            final(self)@ == old(self)@.handle_err(fault),
    {
        self.status = Status::Failed(fault);
    }

    /// `<`: the pointer moves left, unless it is at cell 0.
    pub fn l_stmt(&mut self)
        ensures
            final(self)@ == old(self)@.l_stmt(),
            old(self)@.p == 0 ==> final(self)@ == old(self)@,
    {
        if self.p > 0 {
            self.p -= 1;
        }
    }

    /// `>`: the pointer moves right, whether or not there is a cell.
    pub fn r_stmt(&mut self)
        requires
            old(self)@.p < i32::MAX,
        ensures
            final(self)@ == old(self)@.r_stmt(),
    {
        self.p += 1;
    }

    /// `+`: the current cell goes up by one.
    pub fn a_stmt(&mut self)
        requires
            old(self)@.on_tape(),
        ensures
            final(self)@ == old(self)@.a_stmt(),
    {
        let at = self.p as usize;
        let v = self.memory[at];
        self.memory.set(
            at,
            if v == i32::MAX {
                i32::MIN
            } else {
                v + 1
            },
        );
    }

    /// `-`: the current cell goes down by one.
    pub fn m_stmt(&mut self)
        requires
            old(self)@.on_tape(),
        ensures
            final(self)@ == old(self)@.m_stmt(),
    {
        let at = self.p as usize;
        let v = self.memory[at];
        self.memory.set(
            at,
            if v == i32::MIN {
                i32::MAX
            } else {
                v - 1
            },
        );
    }

    /// `[`: the cursor moves into the body, and a scan of the body begins.
    pub fn lb_stmt(&mut self)
        ensures
            final(self)@ == old(self)@.lb_stmt(),
    {
        self.advance();
        self.loops.push(LoopScan { cond: self.p, start: self.pos });
    }

    /// `]` met where no loop is scanned: nothing happens.
    pub fn rb_stmt(&mut self)
        ensures
            final(self)@ == old(self)@.rb_stmt(),
    {
    }

    /// `.`: the current cell as a character to write.
    pub fn d_stmt(&self) -> (action: Action)
        requires
            self@.on_tape(),
        ensures
            action == self@.d_stmt(),
    {
        let v = self.memory[self.p as usize];
        let code = (v & 0xff) as u8;
        assert((v & 0xff) as u8 as int == (v as int) % 256) by (bit_vector);
        Action::PrintChar { code, end: self.end() }
    }

    /// `*`: the current cell as a number to write.
    pub fn s_stmt(&self) -> (action: Action)
        requires
            self@.on_tape(),
        ensures
            action == self@.s_stmt(),
    {
        Action::PrintInt { value: self.memory[self.p as usize], end: self.end() }
    }

    /// `,` once the line is there: the number it writes goes into the
    /// current cell. A line that writes none ends the run.
    pub fn c_stmt(&mut self, line: &str)
        ensures
            final(self)@ == old(self)@.c_stmt(line@),
    {
        match parse_number(line) {
            Some(v) => {
                if self.on_tape() {
                    let at = self.p as usize;
                    self.memory.set(at, v);
                } else {
                    self.handle_err(Fault::OutOfTape);
                }
            },
            None => {
                self.handle_err(Fault::BadInput);
            },
        }
    }

    /// `!`: the first part of a dump. Nothing but the status changes, and
    /// that only in a run that is ready: a run that waits or has failed
    /// stays as it is.
    pub fn t_stmt(&mut self) -> (action: Action)
        ensures
            (final(self)@, action) == old(self)@.t_stmt(),
            final(self)@ == (Machine { status: final(self)@.status, ..old(self)@ }),
            final(self)@.has_err() == old(self)@.has_err(),
    {
        if self.status == Status::Ready {
            let (action, status) = self.page(0, PAGE);
            self.status = status;
            action
        } else {
            self.waiting()
        }
    }

    /// Carries out the instruction `typedef` where the run stands.
    pub fn statement(&mut self, typedef: TypeDef) -> (action: Action)
        ensures
            (final(self)@, action) == old(self)@.statement(typedef),
            old(self)@.has_err() ==> final(self)@.has_err(),
    {
        match typedef {
            TypeDef::MoveLeft => {
                self.l_stmt();
                Action::Next
            },
            TypeDef::MoveRight => {
                if self.p < i32::MAX {
                    self.r_stmt();
                    Action::Next
                } else {
                    self.give_up(Fault::OutOfTape)
                }
            },
            TypeDef::Increment => {
                if self.on_tape() {
                    self.a_stmt();
                    Action::Next
                } else {
                    self.give_up(Fault::OutOfTape)
                }
            },
            TypeDef::Decrement => {
                if self.on_tape() {
                    self.m_stmt();
                    Action::Next
                } else {
                    self.give_up(Fault::OutOfTape)
                }
            },
            TypeDef::LoopStart => {
                self.lb_stmt();
                Action::Next
            },
            TypeDef::LoopEnd => {
                self.rb_stmt();
                Action::Next
            },
            TypeDef::PrintChar => {
                if self.on_tape() {
                    self.d_stmt()
                } else {
                    self.give_up(Fault::OutOfTape)
                }
            },
            TypeDef::PrintInt => {
                if self.on_tape() {
                    self.s_stmt()
                } else {
                    self.give_up(Fault::OutOfTape)
                }
            },
            TypeDef::ReadInput => {
                if self.status == Status::Ready {
                    self.status = Status::AwaitNumber;
                    Action::ReadInput
                } else {
                    self.waiting()
                }
            },
            TypeDef::DumpMemory => self.t_stmt(),
        }
    }

    /// Makes one transition.
    pub fn step(&mut self) -> (action: Action)
        ensures
            (final(self)@, action) == old(self)@.step(),
            action matches Action::DumpMemory { from, to } ==> from <= to <= final(self)@.memory.len(),
    {
        proof {
            assert(self.memory@.len() == self.memory.len());
            law_dump_is_on_tape(self@, 0, Seq::empty());
        }
        if self.status != Status::Ready {
            self.waiting()
        } else if self.loops.len() > 0 {
            self.scan_step()
        } else if self.pos >= self.tokens.len() {
            Action::Done
        } else {
            self.dispatch()
        }
    }

    /// Makes transitions up to the first that asks something of the
    /// outside, but no more than `budget` of them. Where the budget runs
    /// out first, the result is `Action::Next`, and a further call goes on
    /// from there: a program need not end, and this is how a caller stays
    /// in charge of one that does not.
    pub fn execute(&mut self, budget: u64) -> (action: Action)
        ensures
            (final(self)@, action) == old(self)@.run(budget as nat),
            action matches Action::DumpMemory { from, to } ==> from <= to <= final(self)@.memory.len(),
    {
        let mut left = budget;
        while left > 0
            invariant
                self@.run(left as nat) == old(self)@.run(budget as nat),
            decreases left,
        {
            let action = self.step();
            match action {
                Action::Next => {},
                _ => {
                    return action;
                },
            }
            left = left - 1;
        }
        Action::Next
    }

    /// Hands a line of input to a run that waits for one. A run that waits
    /// for none lets it pass.
    pub fn input(&mut self, line: &str) -> (action: Action)
        ensures
            (final(self)@, action) == old(self)@.input(line@),
            action matches Action::DumpMemory { from, to } ==> from <= to <= final(self)@.memory.len(),
    {
        proof {
            assert(self.memory@.len() == self.memory.len());
            law_dump_is_on_tape(self@, 0, line@);
        }
        match self.status {
            Status::AwaitNumber => {
                self.status = Status::Ready;
                self.c_stmt(line);
                match self.status {
                    Status::Failed(fault) => Action::Failed(fault),
                    _ => {
                        self.advance();
                        Action::Next
                    },
                }
            },
            Status::AwaitReply { next } => {
                if is_next(line) {
                    let (action, status) = self.page(next, PAGE);
                    self.status = status;
                    self.pass(TypeDef::DumpMemory);
                    action
                } else {
                    self.status = Status::Ready;
                    self.advance();
                    Action::Next
                }
            },
            _ => Action::Next,
        }
    }

    fn waiting(&self) -> (action: Action)
        ensures
            action == self@.waiting(),
    {
        match self.status {
            Status::Ready => Action::Next,
            Status::AwaitNumber => Action::ReadInput,
            Status::AwaitReply { next } => Action::AskNext,
            Status::Failed(fault) => Action::Failed(fault),
        }
    }

    fn end(&self) -> (end: char)
        ensures
            end == self@.end(),
    {
        if self.repl_mode {
            '\n'
        } else {
            ' '
        }
    }

    fn advance(&mut self)
        ensures
            final(self)@ == old(self)@.advance(),
    {
        if self.pos < self.tokens.len() {
            self.pos += 1;
        }
    }

    fn pass(&mut self, typedef: TypeDef)
        ensures
            final(self)@ == old(self)@.pass(typedef),
    {
        if self.status == Status::Ready && !typedef_eq(&typedef, &TypeDef::LoopStart) {
            self.advance();
        }
    }

    fn give_up(&mut self, fault: Fault) -> (action: Action)
        ensures
            (final(self)@, action) == old(self)@.give_up(fault),
    {
        self.handle_err(fault);
        Action::Failed(fault)
    }

    fn page(&self, from: usize, span: usize) -> (part: (Action, Status))
        ensures
            part == self@.page(from, span),
    {
        let len = self.memory.len();
        if from <= len && len - from >= span {
            (Action::DumpMemory { from, to: from + span }, Status::AwaitReply { next: from + span })
        } else if from <= len {
            (Action::DumpMemory { from, to: len }, Status::Ready)
        } else {
            (Action::DumpMemory { from: len, to: len }, Status::Ready)
        }
    }

    fn dispatch(&mut self) -> (action: Action)
        requires
            old(self)@.pos < old(self)@.tokens.len(),
        ensures
            (final(self)@, action) == old(self)@.dispatch(),
    {
        let typedef = self.tokens[self.pos].typedef;
        let action = self.statement(typedef);
        self.pass(typedef);
        action
    }

    fn scan_step(&mut self) -> (action: Action)
        requires
            old(self)@.loops.len() > 0,
        ensures
            (final(self)@, action) == old(self)@.scan_step(),
    {
        let scan = self.loops[self.loops.len() - 1];
        if !(0 <= scan.cond && (scan.cond as usize) < self.memory.len()) {
            self.give_up(Fault::OutOfTape)
        } else if self.get_memory_value(scan.cond) == 0 {
            self.loops.pop();
            self.advance();
            Action::Next
        } else if self.pos >= self.tokens.len() {
            self.give_up(Fault::UnterminatedLoop)
        } else if typedef_eq(&self.tokens[self.pos].typedef, &TypeDef::LoopEnd) {
            self.pos = scan.start;
            Action::Next
        } else {
            self.dispatch()
        }
    }
}

} // verus!
