//! The machine that runs a program, as a mathematical model.
//!
//! A [`Machine`] is the whole state of a run: the program, the tape, the
//! pointer into the tape, the cursor into the program, and the loops that
//! are being scanned. [`Machine::step`] is one transition, and
//! [`Machine::run`] a bounded number of them.
//!
//! Three things are worth knowing before reading on.
//!
//! * The machine writes and reads nothing. A transition that has something
//!   to say to the outside hands back an [`Action`]. Only `,` and `!` make
//!   the machine wait, and then for a line of input, which comes in through
//!   [`Machine::input`].
//! * Loops are not matched by depth. A loop is scanned from its `[` on, its
//!   cell is read before every instruction, and the first `]` met ends the
//!   round, also one that was written for a loop further in.
//! * `>` has no bound: the pointer may stand to the right of the tape. What
//!   has a bound is the use of a cell. A run that reads or writes a cell
//!   that is not there is given up with [`Fault::OutOfTape`], and so is one
//!   that moves right from the largest address there is.

use vstd::prelude::*;
use crate::text::{number, trim, trim_end};
use crate::token::{Token, TypeDef};

verus! {

/// Why a run was given up.
#[derive(Debug, Clone, Copy, PartialEq, Eq, Structural)]
pub enum Fault {
    /// The program ended inside a loop whose cell was not zero.
    UnterminatedLoop,
    /// A line of input was no number.
    BadInput,
    /// A cell outside the tape was asked for, or the pointer could not move
    /// further to the right.
    OutOfTape,
}

/// What the machine is waiting for, if for anything.
#[derive(Debug, Clone, Copy, PartialEq, Eq, Structural)]
pub enum Status {
    /// The next transition can be made.
    Ready,
    /// A `,` waits for a line of input.
    AwaitNumber,
    /// A `!` has shown the cells before `next` and waits to hear whether to
    /// go on.
    AwaitReply { next: usize },
    /// The run was given up.
    Failed(Fault),
}

/// A loop being scanned: the cell that keeps it going and where its body
/// starts.
#[derive(Debug, Clone, Copy, PartialEq, Eq, Structural)]
pub struct LoopScan {
    /// The address of the cell that is tested before every instruction of
    /// the body.
    pub cond: i32,
    /// The cursor of the first instruction of the body.
    pub start: usize,
}

/// What a transition asks of the world outside the machine.
#[derive(Debug, Clone, Copy, PartialEq, Eq, Structural)]
pub enum Action {
    /// Nothing.
    Next,
    /// Write the character with this code, then `end`.
    PrintChar { code: u8, end: char },
    /// Write this number in decimal, then `end`.
    PrintInt { value: i32, end: char },
    /// Read a line and hand it to the machine.
    ReadInput,
    /// Write the cells from `from` up to, not including, `to`.
    DumpMemory { from: usize, to: usize },
    /// Ask whether to go on with the dump, read a line and hand it to the
    /// machine.
    AskNext,
    /// Report that the run was given up.
    Failed(Fault),
    /// Nothing: the program has ended.
    Done,
}

/// The cells of a tape where no other number is asked for.
pub const TAPE_SIZE: usize = 10000;

/// The cells of one part of a dump: a question follows every 50 cells.
pub const PAGE: usize = 50;

/// One more than `v`, wrapping round from the largest value to the smallest.
pub open spec fn inc(v: i32) -> i32 {
    if v == i32::MAX {
        i32::MIN
    } else {
        (v + 1) as i32
    }
}

/// One less than `v`, wrapping round from the smallest value to the largest.
pub open spec fn dec(v: i32) -> i32 {
    if v == i32::MIN {
        i32::MAX
    } else {
        (v - 1) as i32
    }
}

/// The low eight bits of `v`.
pub open spec fn low_byte(v: i32) -> u8 {
    (v as int % 256) as u8
}

/// What happens to a machine from outside: a transition is asked of it, or
/// a line of input is handed to it.
pub ghost enum Event {
    /// One transition.
    Step,
    /// One line of input.
    Line(Seq<char>),
}

/// The state of a run.
pub ghost struct Machine {
    /// The program.
    pub tokens: Seq<Token>,
    /// The tape.
    pub memory: Seq<i32>,
    /// The pointer: the address of the current cell.
    pub p: i32,
    /// The cursor: the index of the next instruction.
    pub pos: usize,
    /// Whether output is for an interactive prompt.
    pub repl_mode: bool,
    /// The loops being scanned, the innermost last.
    pub loops: Seq<LoopScan>,
    /// What the machine is waiting for.
    pub status: Status,
}

impl Machine {
    /// The machine before the first instruction of `tokens`.
    pub open spec fn start(tokens: Seq<Token>, memory: Seq<i32>, p: i32, repl_mode: bool) -> Machine {
        Machine { tokens, memory, p, pos: 0, repl_mode, loops: Seq::empty(), status: Status::Ready }
    }

    /// What holds of every machine that a run can reach from its start:
    /// the pointer is not below cell 0, the cursor is not beyond the end of
    /// the program, and each loop being scanned belongs to a `[` of its
    /// own, the loops further in to those further on in the program, with
    /// the cursor in or behind the body of the innermost.
    pub open spec fn inv(self) -> bool {
        &&& self.p >= 0
        &&& self.pos <= self.tokens.len() <= usize::MAX
        &&& self.memory.len() <= usize::MAX
        &&& forall|i: int|
            0 <= i < self.loops.len() ==> {
                let scan = #[trigger] self.loops[i];
                &&& scan.cond >= 0
                &&& 1 <= scan.start <= self.tokens.len()
                &&& self.tokens[scan.start - 1].typedef == TypeDef::LoopStart
            }
        &&& forall|i: int, j: int|
            0 <= i < j < self.loops.len() ==> (#[trigger] self.loops[i]).start < (
            #[trigger] self.loops[j]).start
        &&& self.loops.len() > 0 ==> self.loops.last().start <= self.pos
        &&& self.status matches Status::AwaitReply { next } ==> next <= self.memory.len()
    }

    /// Whether the pointer is on the tape.
    pub open spec fn on_tape(self) -> bool {
        0 <= self.p < self.memory.len()
    }

    /// The current cell.
    pub open spec fn cell(self) -> i32
        recommends
            self.on_tape(),
    {
        self.memory[self.p as int]
    }

    /// Whether the run was given up.
    pub open spec fn has_err(self) -> bool {
        self.status is Failed
    }

    /// Whether the program has run to its end.
    pub open spec fn finished(self) -> bool {
        self.status is Ready && self.loops.len() == 0 && self.pos >= self.tokens.len()
    }

    /// What is written behind each value: a newline at an interactive
    /// prompt, a space elsewhere.
    pub open spec fn end(self) -> char {
        if self.repl_mode {
            '\n'
        } else {
            ' '
        }
    }

    /// The run given up for `fault`.
    pub open spec fn handle_err(self, fault: Fault) -> Machine {
        Machine { status: Status::Failed(fault), ..self }
    }

    /// The cursor moved to the next instruction; it stays where it is at the
    /// end of the program.
    pub open spec fn advance(self) -> Machine {
        Machine {
            pos: if self.pos < self.tokens.len() {
                (self.pos + 1) as usize
            } else {
                self.pos
            },
            ..self
        }
    }

    /// `<`: the pointer moves left, unless it is at cell 0.
    pub open spec fn l_stmt(self) -> Machine {
        Machine {
            p: if self.p > 0 {
                (self.p - 1) as i32
            } else {
                self.p
            },
            ..self
        }
    }

    /// `>`: the pointer moves right, whether or not there is a cell.
    pub open spec fn r_stmt(self) -> Machine {
        Machine { p: (self.p + 1) as i32, ..self }
    }

    /// `+`: the current cell goes up by one.
    pub open spec fn a_stmt(self) -> Machine {
        Machine { memory: self.memory.update(self.p as int, inc(self.cell())), ..self }
    }

    /// `-`: the current cell goes down by one.
    pub open spec fn m_stmt(self) -> Machine {
        Machine { memory: self.memory.update(self.p as int, dec(self.cell())), ..self }
    }

    /// `[`: the cursor moves into the body, and a scan of the body begins
    /// that is kept going by the cell under the pointer.
    pub open spec fn lb_stmt(self) -> Machine {
        let body = self.advance();
        Machine { loops: self.loops.push(LoopScan { cond: self.p, start: body.pos }), ..body }
    }

    /// `]` met where no loop is scanned: nothing happens.
    pub open spec fn rb_stmt(self) -> Machine {
        self
    }

    /// `.`: the current cell as a character.
    pub open spec fn d_stmt(self) -> Action {
        Action::PrintChar { code: low_byte(self.cell()), end: self.end() }
    }

    /// `*`: the current cell as a number.
    pub open spec fn s_stmt(self) -> Action {
        Action::PrintInt { value: self.cell(), end: self.end() }
    }

    /// `,` once the line is there: the number it writes goes into the
    /// current cell. A line that writes none ends the run.
    pub open spec fn c_stmt(self, line: Seq<char>) -> Machine {
        match number(trim(line)) {
            Some(v) => if self.on_tape() {
                Machine { memory: self.memory.update(self.p as int, v), ..self }
            } else {
                self.handle_err(Fault::OutOfTape)
            },
            None => self.handle_err(Fault::BadInput),
        }
    }

    /// The part of a dump that starts at cell `from` and holds at most
    /// `span` cells, and what follows it: a question where the part is
    /// full, nothing where the tape ends first.
    pub open spec fn page(self, from: usize, span: usize) -> (Action, Status) {
        let len = self.memory.len() as usize;
        if from <= len && len - from >= span {
            (
                Action::DumpMemory { from, to: (from + span) as usize },
                Status::AwaitReply { next: (from + span) as usize },
            )
        } else if from <= len {
            (Action::DumpMemory { from, to: len }, Status::Ready)
        } else {
            (Action::DumpMemory { from: len, to: len }, Status::Ready)
        }
    }

    /// What a machine that is not ready answers to whatever is asked of
    /// it: the report of its failure, or the request that it waits on.
    pub open spec fn waiting(self) -> Action {
        match self.status {
            Status::Ready => Action::Next,
            Status::AwaitNumber => Action::ReadInput,
            Status::AwaitReply { next } => Action::AskNext,
            Status::Failed(fault) => Action::Failed(fault),
        }
    }

    /// `!`: the first part of a dump. Nothing but the status changes, and
    /// that only in a machine that is ready: a machine that waits or has
    /// failed stays as it is.
    pub open spec fn t_stmt(self) -> (Machine, Action) {
        if self.status is Ready {
            let (action, status) = self.page(0, PAGE);
            (Machine { status, ..self }, action)
        } else {
            (self, self.waiting())
        }
    }

    /// `,` before the line is there: a machine that is ready now waits for
    /// the line. A machine that waits or has failed stays as it is.
    pub open spec fn await_number(self) -> (Machine, Action) {
        if self.status is Ready {
            (Machine { status: Status::AwaitNumber, ..self }, Action::ReadInput)
        } else {
            (self, self.waiting())
        }
    }

    /// The instruction `typedef`, carried out where the machine stands.
    pub open spec fn statement(self, typedef: TypeDef) -> (Machine, Action) {
        match typedef {
            TypeDef::MoveLeft => (self.l_stmt(), Action::Next),
            TypeDef::MoveRight => if self.p < i32::MAX {
                (self.r_stmt(), Action::Next)
            } else {
                self.give_up(Fault::OutOfTape)
            },
            TypeDef::Increment => if self.on_tape() {
                (self.a_stmt(), Action::Next)
            } else {
                self.give_up(Fault::OutOfTape)
            },
            TypeDef::Decrement => if self.on_tape() {
                (self.m_stmt(), Action::Next)
            } else {
                self.give_up(Fault::OutOfTape)
            },
            TypeDef::LoopStart => (self.lb_stmt(), Action::Next),
            TypeDef::LoopEnd => (self.rb_stmt(), Action::Next),
            TypeDef::PrintChar => if self.on_tape() {
                (self, self.d_stmt())
            } else {
                self.give_up(Fault::OutOfTape)
            },
            TypeDef::PrintInt => if self.on_tape() {
                (self, self.s_stmt())
            } else {
                self.give_up(Fault::OutOfTape)
            },
            TypeDef::ReadInput => self.await_number(),
            TypeDef::DumpMemory => self.t_stmt(),
        }
    }

    /// The run given up for `fault`, and the report of it.
    pub open spec fn give_up(self, fault: Fault) -> (Machine, Action) {
        (self.handle_err(fault), Action::Failed(fault))
    }

    /// The cursor moved past an instruction that is over and done with. It
    /// stays on one that waits or failed, and where a loop was entered it
    /// is in the body already.
    pub open spec fn pass(self, typedef: TypeDef) -> Machine {
        if self.status is Ready && typedef != TypeDef::LoopStart {
            self.advance()
        } else {
            self
        }
    }

    /// The instruction under the cursor carried out, and the cursor moved
    /// past it.
    pub open spec fn dispatch(self) -> (Machine, Action) {
        let typedef = self.tokens[self.pos as int].typedef;
        let (after, action) = self.statement(typedef);
        (after.pass(typedef), action)
    }

    /// One transition of a machine that is inside a loop.
    ///
    /// The cell of the innermost loop is read again before every
    /// instruction. Once it holds zero the scan is over, wherever in the
    /// body the cursor stands, and the cursor moves on by one. The first `]`
    /// that the scan meets sends the cursor back to the start of the body,
    /// whichever `[` it was written for.
    pub open spec fn scan_step(self) -> (Machine, Action) {
        let scan = self.loops.last();
        if !(0 <= scan.cond < self.memory.len()) {
            self.give_up(Fault::OutOfTape)
        } else if self.memory[scan.cond as int] == 0 {
            (Machine { loops: self.loops.drop_last(), ..self }.advance(), Action::Next)
        } else if self.pos >= self.tokens.len() {
            self.give_up(Fault::UnterminatedLoop)
        } else if self.tokens[self.pos as int].typedef == TypeDef::LoopEnd {
            (Machine { pos: scan.start, ..self }, Action::Next)
        } else {
            self.dispatch()
        }
    }

    /// One transition.
    pub open spec fn step(self) -> (Machine, Action) {
        if !(self.status is Ready) {
            (self, self.waiting())
        } else if self.loops.len() > 0 {
            self.scan_step()
        } else if self.pos >= self.tokens.len() {
            (self, Action::Done)
        } else {
            self.dispatch()
        }
    }

    /// Transitions up to the first that asks something of the outside, but
    /// no more than `budget` of them.
    pub open spec fn run(self, budget: nat) -> (Machine, Action)
        decreases budget,
    {
        if budget == 0 {
            (self, Action::Next)
        } else {
            let (after, action) = self.step();
            if action == Action::Next {
                after.run((budget - 1) as nat)
            } else {
                (after, action)
            }
        }
    }

    /// The machine after one event.
    pub open spec fn on(self, event: Event) -> Machine {
        match event {
            Event::Step => self.step().0,
            Event::Line(line) => self.input(line).0,
        }
    }

    /// The machine after `events`, in their order.
    pub open spec fn after(self, events: Seq<Event>) -> Machine
        decreases events.len(),
    {
        if events.len() == 0 {
            self
        } else {
            self.after(events.drop_last()).on(events.last())
        }
    }

    /// A line of input handed to a machine that waits for one. A machine
    /// that waits for none lets it pass.
    pub open spec fn input(self, line: Seq<char>) -> (Machine, Action) {
        match self.status {
            Status::AwaitNumber => {
                let after = Machine { status: Status::Ready, ..self }.c_stmt(line);
                match after.status {
                    Status::Failed(fault) => (after, Action::Failed(fault)),
                    _ => (after.advance(), Action::Next),
                }
            },
            Status::AwaitReply { next } => if trim_end(line) == seq!['n'] {
                let (action, status) = self.page(next, PAGE);
                (Machine { status, ..self }.pass(TypeDef::DumpMemory), action)
            } else {
                (Machine { status: Status::Ready, ..self }.advance(), Action::Next)
            },
            _ => (self, Action::Next),
        }
    }
}

/// Going up by one and then down by one, or the other way round, gives
/// the value back, at the ends of the range too.
pub proof fn law_inc_dec_undo_each_other(v: i32)
    ensures
        dec(inc(v)) == v,
        inc(dec(v)) == v,
{
}

/// `+` and then `-` on a cell of the tape, or the other way round, leaves
/// the machine as it was.
pub proof fn law_increment_undoes_decrement(m: Machine)
    requires
        m.on_tape(),
    ensures
        m.a_stmt().m_stmt() == m,
        m.m_stmt().a_stmt() == m,
{
    assert(m.a_stmt().m_stmt().memory =~= m.memory);
    assert(m.m_stmt().a_stmt().memory =~= m.memory);
}

/// At cell 0 a move to the left changes nothing, and from nowhere does it
/// lead below cell 0.
pub proof fn law_left_stops_at_zero(m: Machine)
    ensures
        m.p == 0 ==> m.l_stmt() == m,
        m.p >= 0 ==> m.l_stmt().p >= 0,
        m.statement(TypeDef::MoveLeft) == (m.l_stmt(), Action::Next),
{
}

/// A run starts in a state of which [`Machine::inv`] holds, where the
/// pointer is not below cell 0.
pub proof fn law_start_is_sound(tokens: Seq<Token>, memory: Seq<i32>, p: i32, repl_mode: bool)
    requires
        p >= 0,
        tokens.len() <= usize::MAX,
        memory.len() <= usize::MAX,
    ensures
        Machine::start(tokens, memory, p, repl_mode).inv(),
{
}

/// No transition leads out of the states of which [`Machine::inv`] holds.
pub proof fn law_step_is_sound(m: Machine)
    requires
        m.inv(),
    ensures
        m.step().0.inv(),
{
    let after = m.step().0;
    if after.loops.len() > m.loops.len() {
        assert(after.loops == m.loops.push(after.loops.last()));
    }
}

/// No line of input leads out of the states of which [`Machine::inv`]
/// holds.
pub proof fn law_input_is_sound(m: Machine, line: Seq<char>)
    requires
        m.inv(),
    ensures
        m.input(line).0.inv(),
{
}

/// No number of transitions leads out of the states of which
/// [`Machine::inv`] holds.
pub proof fn law_run_is_sound(m: Machine, budget: nat)
    requires
        m.inv(),
    ensures
        m.run(budget).0.inv(),
    decreases budget,
{
    if budget > 0 {
        law_step_is_sound(m);
        if m.step().1 == Action::Next {
            law_run_is_sound(m.step().0, (budget - 1) as nat);
        }
    }
}

/// There are never more loops being scanned than the program has
/// instructions before the cursor.
pub proof fn law_depth_is_bounded(m: Machine)
    requires
        m.inv(),
    ensures
        m.loops.len() <= m.pos <= m.tokens.len(),
{
    lemma_starts_grow(m, m.loops.len() as int);
}

/// The body of the `n`th loop being scanned starts behind at least `n`
/// instructions.
proof fn lemma_starts_grow(m: Machine, n: int)
    requires
        m.inv(),
        0 <= n <= m.loops.len(),
    ensures
        n > 0 ==> m.loops[n - 1].start >= n,
    decreases n,
{
    if n > 1 {
        lemma_starts_grow(m, n - 1);
    }
}

/// In a machine that is ready the cursor stays, moves on by one, or goes
/// back to the start of the body of the innermost loop; in one that is
/// not, it stays.
pub proof fn law_cursor_moves(m: Machine)
    requires
        m.tokens.len() <= usize::MAX,
    ensures
        ({
            let after = m.step().0;
            ||| after.pos == m.pos
            ||| m.status is Ready && after.pos == m.pos + 1
            ||| m.status is Ready && m.loops.len() > 0 && after.pos == m.loops.last().start
        }),
{
}

/// No transition changes the program, the length of the tape or the kind of
/// output, and none takes the pointer below cell 0.
pub proof fn law_step_keeps_frame(m: Machine)
    ensures
        m.step().0.tokens == m.tokens,
        m.step().0.memory.len() == m.memory.len(),
        m.step().0.repl_mode == m.repl_mode,
        m.p >= 0 ==> m.step().0.p >= 0,
{
}

/// No line of input changes the program, the length of the tape or the kind
/// of output, and none moves the pointer.
pub proof fn law_input_keeps_frame(m: Machine, line: Seq<char>)
    ensures
        m.input(line).0.tokens == m.tokens,
        m.input(line).0.memory.len() == m.memory.len(),
        m.input(line).0.repl_mode == m.repl_mode,
        m.input(line).0.p == m.p,
{
}

/// What holds of one transition holds of any number of them.
pub proof fn law_run_keeps_frame(m: Machine, budget: nat)
    ensures
        m.run(budget).0.tokens == m.tokens,
        m.run(budget).0.memory.len() == m.memory.len(),
        m.run(budget).0.repl_mode == m.repl_mode,
        m.p >= 0 ==> m.run(budget).0.p >= 0,
    decreases budget,
{
    if budget > 0 {
        law_step_keeps_frame(m);
        if m.step().1 == Action::Next {
            law_run_keeps_frame(m.step().0, (budget - 1) as nat);
        }
    }
}

/// No instruction takes a failure back: a run that was given up is still
/// given up after any instruction, carried out one by one or by a
/// transition.
pub proof fn law_failure_stays(m: Machine, typedef: TypeDef, line: Seq<char>)
    requires
        m.has_err(),
    ensures
        m.statement(typedef).0.has_err(),
        m.c_stmt(line).has_err(),
        m.step().0.has_err(),
        m.input(line).0.has_err(),
{
}

/// What one instruction can touch: none changes the program, only `[`
/// moves the cursor or begins a scan, only `+` and `-` change the tape, and
/// only `<` and `>` move the pointer. With the pointer on the tape and
/// below the largest address, no instruction raises a failure, and none
/// ever clears one.
pub proof fn law_statement_touches_little(m: Machine, typedef: TypeDef)
    ensures
        ({
            let after = m.statement(typedef).0;
            &&& after.tokens == m.tokens
            &&& after.repl_mode == m.repl_mode
            &&& after.memory.len() == m.memory.len()
            &&& typedef != TypeDef::LoopStart ==> after.pos == m.pos && after.loops == m.loops
            &&& typedef != TypeDef::Increment && typedef != TypeDef::Decrement ==> after.memory
                == m.memory
            &&& typedef != TypeDef::MoveLeft && typedef != TypeDef::MoveRight ==> after.p == m.p
            &&& m.on_tape() && m.p < i32::MAX ==> after.has_err() == m.has_err()
            &&& m.has_err() ==> after.has_err()
        }),
{
}

/// A dump only reads the tape: `!` changes nothing but what the machine
/// waits for, it neither raises nor clears a failure, and it leaves a
/// machine that is not ready wholly as it is. The same holds of `,` before
/// its line is there.
pub proof fn law_dump_only_reads(m: Machine)
    ensures
        m.t_stmt().0 == (Machine { status: m.t_stmt().0.status, ..m }),
        m.t_stmt().0.has_err() == m.has_err(),
        !(m.status is Ready) ==> m.t_stmt().0 == m,
        m.await_number().0 == (Machine { status: m.await_number().0.status, ..m }),
        m.await_number().0.has_err() == m.has_err(),
        !(m.status is Ready) ==> m.await_number().0 == m,
{
}

/// The first part of a dump is the first 50 cells, or the whole tape where
/// that is shorter; each further part that is asked for with `n` is the
/// next 50 cells, or what is left of the tape.
pub proof fn law_dump_goes_by_fifties(m: Machine, next: usize)
    requires
        m.memory.len() <= usize::MAX,
    ensures
        m.status is Ready && m.memory.len() >= 50 ==> m.t_stmt() == (
            Machine { status: Status::AwaitReply { next: 50 }, ..m },
            Action::DumpMemory { from: 0, to: 50 },
        ),
        m.status is Ready && m.memory.len() < 50 ==> m.t_stmt() == (
            m,
            Action::DumpMemory { from: 0, to: m.memory.len() as usize },
        ),
        m.status == (Status::AwaitReply { next }) && next + 50 <= m.memory.len() ==> m.input(
            seq!['n'],
        ).1 == (Action::DumpMemory { from: next, to: (next + 50) as usize }),
{
    assert(trim_end(seq!['n']) == seq!['n']) by {
        reveal_with_fuel(trim_end, 2);
    }
}

/// A run that was given up stays given up: every further transition
/// reports the same fault and changes nothing, and a line of input is let
/// pass.
pub proof fn law_failure_is_final(m: Machine, budget: nat, line: Seq<char>)
    requires
        m.has_err(),
    ensures
        m.step() == (m, Action::Failed(m.status->Failed_0)),
        budget > 0 ==> m.run(budget) == (m, Action::Failed(m.status->Failed_0)),
        m.input(line) == (m, Action::Next),
        !m.finished(),
{
}

/// A program that has run to its end stays there.
pub proof fn law_end_is_final(m: Machine, budget: nat, line: Seq<char>)
    requires
        m.finished(),
    ensures
        m.step() == (m, Action::Done),
        budget > 0 ==> m.run(budget) == (m, Action::Done),
        m.input(line) == (m, Action::Next),
{
}

/// Only `,` and `!` make a machine wait, and only a waiting machine asks
/// for a line.
pub proof fn law_only_input_and_dump_wait(m: Machine)
    requires
        m.status is Ready,
    ensures
        m.step().0.status is AwaitNumber ==> m.pos < m.tokens.len() && m.tokens[m.pos as int].typedef
            == TypeDef::ReadInput,
        m.step().0.status is AwaitReply ==> m.pos < m.tokens.len() && m.tokens[m.pos as int].typedef
            == TypeDef::DumpMemory,
        m.step().1 == Action::ReadInput <==> m.step().0.status is AwaitNumber,
        m.step().1 != Action::AskNext,
{
}

/// Whatever part of the tape a machine asks to be written lies on the tape.
pub proof fn law_dump_is_on_tape(m: Machine, budget: nat, line: Seq<char>)
    requires
        m.memory.len() <= usize::MAX,
    ensures
        m.step().1 matches Action::DumpMemory { from, to } ==> from <= to <= m.memory.len(),
        m.run(budget).1 matches Action::DumpMemory { from, to } ==> from <= to <= m.memory.len(),
        m.input(line).1 matches Action::DumpMemory { from, to } ==> from <= to <= m.memory.len(),
    decreases budget,
{
    if budget > 0 && m.step().1 == Action::Next {
        law_step_keeps_frame(m);
        law_dump_is_on_tape(m.step().0, (budget - 1) as nat, line);
    }
}

/// A `]` met where no loop is scanned is passed over.
pub proof fn law_stray_loop_end_is_skipped(m: Machine)
    requires
        m.status is Ready,
        m.loops.len() == 0,
        m.pos < m.tokens.len(),
        m.tokens[m.pos as int].typedef == TypeDef::LoopEnd,
    ensures
        m.step() == (m.advance(), Action::Next),
{
}

/// A loop whose cell holds zero is left before its next instruction, and
/// the cursor moves on by one from where it stands.
pub proof fn law_loop_ends_on_zero(m: Machine)
    requires
        m.status is Ready,
        m.loops.len() > 0,
        0 <= m.loops.last().cond < m.memory.len(),
        m.memory[m.loops.last().cond as int] == 0,
    ensures
        m.step() == (Machine { loops: m.loops.drop_last(), ..m }.advance(), Action::Next),
{
}

/// Inside a loop whose cell does not hold zero, `]` sends the cursor back
/// to the start of the body, and the end of the program gives the run up.
pub proof fn law_loop_goes_round(m: Machine)
    requires
        m.status is Ready,
        m.loops.len() > 0,
        0 <= m.loops.last().cond < m.memory.len(),
        m.memory[m.loops.last().cond as int] != 0,
    ensures
        m.pos >= m.tokens.len() ==> m.step() == m.give_up(Fault::UnterminatedLoop),
        m.pos < m.tokens.len() && m.tokens[m.pos as int].typedef == TypeDef::LoopEnd ==> m.step() == (
            Machine { pos: m.loops.last().start, ..m },
            Action::Next,
        ),
{
}

/// A budget may be spent in two parts: where the first part runs out
/// without anything being asked of the outside, the second goes on from
/// there, and where something is asked, the rest is not touched.
pub proof fn law_run_in_parts(m: Machine, first: nat, second: nat)
    ensures
        m.run(first + second) == if m.run(first).1 == Action::Next {
            m.run(first).0.run(second)
        } else {
            m.run(first)
        },
    decreases first,
{
    if first > 0 && m.step().1 == Action::Next {
        law_run_in_parts(m.step().0, (first - 1) as nat, second);
    }
}

/// Whether the three instructions from `at` on are `[`, `-`, `]`.
pub open spec fn is_clear_loop(tokens: Seq<Token>, at: int) -> bool {
    &&& 0 <= at
    &&& at + 2 < tokens.len()
    &&& tokens[at].typedef == TypeDef::LoopStart
    &&& tokens[at + 1].typedef == TypeDef::Decrement
    &&& tokens[at + 2].typedef == TypeDef::LoopEnd
}

/// The scan of a loop `[-]` on a cell that holds `count`, from the start of
/// its body: the body runs `count` times, each time but the last followed
/// by the way back from `]`, and then the scan is over with the cell at
/// zero and the cursor behind the `]`.
proof fn lemma_clear_loop_scan(m: Machine, count: nat)
    requires
        m.status is Ready,
        m.on_tape(),
        m.cell() == count,
        count >= 1,
        m.pos >= 1,
        m.tokens.len() <= usize::MAX,
        is_clear_loop(m.tokens, m.pos - 1),
        m.loops.len() > 0,
        m.loops.last() == (LoopScan { cond: m.p, start: m.pos }),
    ensures
        m.run(2 * count) == (
            Machine {
                memory: m.memory.update(m.p as int, 0),
                pos: (m.pos + 2) as usize,
                loops: m.loops.drop_last(),
                ..m
            },
            Action::Next,
        ),
    decreases count,
{
    // The first transition carries out `-`; the second leaves the loop where
    // the cell has reached zero, and goes back to the start of the body
    // where it has not.
    let lowered = m.step().0;
    let second = lowered.step().0;
    assert(lowered.run(1) == lowered.step()) by {
        assert(second.run(0) == (second, Action::Next));
    }
    if count > 1 {
        lemma_clear_loop_scan(second, (count - 1) as nat);
        assert(second.memory.update(m.p as int, 0) =~= m.memory.update(m.p as int, 0));
    }
    assert(m.run(2 * count) == lowered.run((2 * count - 1) as nat));
}

/// The loop `[-]` clears a cell that holds a positive number: met outside
/// any loop on a cell that holds `count`, it runs its body exactly `count`
/// times, in `2 * count + 1` transitions, and leaves the cell at zero, the
/// cursor behind the loop and all else as it was.
pub proof fn law_clear_loop(m: Machine, count: nat)
    requires
        m.status is Ready,
        m.loops.len() == 0,
        m.on_tape(),
        m.cell() == count,
        count >= 1,
        m.tokens.len() <= usize::MAX,
        is_clear_loop(m.tokens, m.pos as int),
    ensures
        m.run(2 * count + 1) == (
            Machine { memory: m.memory.update(m.p as int, 0), pos: (m.pos + 3) as usize, ..m },
            Action::Next,
        ),
{
    let entered = m.step().0;
    lemma_clear_loop_scan(entered, count);
    assert(entered.loops.drop_last() =~= m.loops);
}

/// One event takes at most one loop off the loops being scanned, and then
/// the innermost: that happens only in a machine that is ready, only where
/// the cell of that loop holds zero, and it changes neither the tape nor
/// the pointer. Every other event leaves the loops that were being scanned
/// where they are.
pub proof fn law_one_event_leaves_one_loop(m: Machine, event: Event)
    ensures
        m.on(event).loops.len() >= m.loops.len() ==> m.on(event).loops.take(m.loops.len() as int)
            == m.loops,
        m.on(event).loops.len() < m.loops.len() ==> {
            &&& m.on(event).loops == m.loops.drop_last()
            &&& m.status is Ready
            &&& m.on(event).status is Ready
            &&& 0 <= m.loops.last().cond < m.memory.len()
            &&& m.memory[m.loops.last().cond as int] == 0
            &&& m.on(event).memory == m.memory
            &&& m.on(event).p == m.p
        },
{
    let after = m.on(event);
    if after.loops.len() >= m.loops.len() {
        assert(after.loops.take(m.loops.len() as int) =~= m.loops);
    }
}

/// As long as none of the loops that were being scanned has been left,
/// they all are still being scanned, in the same order.
proof fn lemma_outer_loops_stay(m: Machine, events: Seq<Event>)
    requires
        forall|k: int|
            0 <= k <= events.len() ==> (#[trigger] m.after(events.take(k))).loops.len()
                >= m.loops.len(),
    ensures
        m.after(events).loops.take(m.loops.len() as int) == m.loops,
    decreases events.len(),
{
    let depth = m.loops.len() as int;
    if events.len() == 0 {
        assert(m.loops.take(depth) =~= m.loops);
    } else {
        let earlier = events.drop_last();
        let before = m.after(earlier);
        assert forall|k: int| 0 <= k <= earlier.len() implies (#[trigger] m.after(
            earlier.take(k),
        )).loops.len() >= depth by {
            assert(earlier.take(k) == events.take(k));
        }
        lemma_outer_loops_stay(m, earlier);
        assert(events.take(events.len() as int) == events);
        assert(events.take(earlier.len() as int) == earlier);
        law_one_event_leaves_one_loop(before, events.last());
        assert(m.after(events).loops.take(depth) =~= before.loops.take(depth));
    }
}

/// A loop is left only with its cell at zero.
///
/// Take a machine inside a loop and any events, transitions and lines of
/// input in any order, of which the last is the first to leave fewer loops
/// being scanned than there were. Then this last event has ended the scan
/// of the innermost loop and of no other, and the cell of that loop, at the
/// address that was the pointer when the loop was entered, holds zero. The
/// machine has not failed. A run that fails inside the loop never leaves
/// it: its loops stay as they are.
pub proof fn law_loop_is_left_on_zero(m: Machine, events: Seq<Event>)
    requires
        m.loops.len() > 0,
        m.after(events).loops.len() < m.loops.len(),
        forall|k: int|
            0 <= k < events.len() ==> (#[trigger] m.after(events.take(k))).loops.len()
                >= m.loops.len(),
    ensures
        m.after(events).loops == m.loops.drop_last(),
        0 <= m.loops.last().cond < m.after(events).memory.len(),
        m.after(events).memory[m.loops.last().cond as int] == 0,
        m.after(events).status is Ready,
{
    let depth = m.loops.len() as int;
    if events.len() == 0 {
        assert(m.after(events) == m);
    } else {
        let earlier = events.drop_last();
        let before = m.after(earlier);
        assert forall|k: int| 0 <= k <= earlier.len() implies (#[trigger] m.after(
            earlier.take(k),
        )).loops.len() >= depth by {
            assert(earlier.take(k) == events.take(k));
        }
        lemma_outer_loops_stay(m, earlier);
        assert(events.take(earlier.len() as int) == earlier);
        law_one_event_leaves_one_loop(before, events.last());
        assert(before.loops.len() == depth);
        assert(before.loops.take(depth) =~= before.loops);
    }
}

/// From `[` to the end of its loop: where a machine meets `[` and the loop
/// that begins there is ever left, the cell that was under the pointer at
/// the `[` holds zero at that moment, whatever the pointer and the other
/// cells have come to by then.
pub proof fn law_loop_from_entry_to_exit(m: Machine, events: Seq<Event>)
    requires
        m.lb_stmt().after(events).loops.len() <= m.loops.len(),
        forall|k: int|
            0 <= k < events.len() ==> (#[trigger] m.lb_stmt().after(events.take(k))).loops.len()
                > m.loops.len(),
    ensures
        m.lb_stmt().after(events).loops == m.loops,
        0 <= m.p < m.lb_stmt().after(events).memory.len(),
        m.lb_stmt().after(events).memory[m.p as int] == 0,
        !m.lb_stmt().after(events).has_err(),
{
    let entered = m.lb_stmt();
    law_loop_is_left_on_zero(entered, events);
    assert(entered.loops.drop_last() =~= m.loops);
}

} // verus!
