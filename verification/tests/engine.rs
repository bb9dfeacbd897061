use smoke::chunk::Chunk;
use smoke::machine::{Action, Fault, Status, PAGE, TAPE_SIZE};
use smoke::token::{Token, TypeDef};
use smoke::tokenizer::tokenizer;

const BUDGET: u64 = 1_000_000;

fn program(source: &str) -> Vec<Token> {
    let (ok, tokens) = tokenizer(source);
    assert!(ok, "{:?} was not accepted", source);
    tokens
}

/// Runs `chunk` until it ends, fails, runs out of budget or wants a line
/// that `lines` does not have, and gives back what it asked for on the way.
fn drive(chunk: &mut Chunk, lines: &[&str]) -> Vec<Action> {
    let mut asked = Vec::new();
    let mut lines = lines.iter();
    loop {
        let action = chunk.execute(BUDGET);
        asked.push(action);
        match action {
            Action::Next | Action::Done | Action::Failed(_) => return asked,
            Action::ReadInput | Action::AskNext => match lines.next() {
                Some(line) => match chunk.input(line) {
                    Action::Next => {}
                    other => {
                        asked.push(other);
                        if matches!(other, Action::Failed(_)) {
                            return asked;
                        }
                    }
                },
                None => return asked,
            },
            Action::PrintChar { .. } | Action::PrintInt { .. } | Action::DumpMemory { .. } => {}
        }
    }
}

fn run(source: &str, size: usize) -> (Chunk, Vec<Action>) {
    let mut chunk = Chunk::new(program(source), size, false);
    let asked = drive(&mut chunk, &[]);
    (chunk, asked)
}

#[test]
fn new_run_starts_on_a_zero_tape() {
    let chunk = Chunk::new(program("+"), 10, false);
    assert_eq!(chunk.memory(), &vec![0; 10]);
    assert_eq!(chunk.pointer(), 0);
    assert_eq!(chunk.cursor(), 0);
    assert_eq!(chunk.status(), Status::Ready);
    assert!(!chunk.has_err());
    assert!(!chunk.finished());
    assert!(chunk.on_tape());
    assert!(Chunk::new(Vec::new(), 10, false).finished());
    assert!(!Chunk::new(Vec::new(), 0, false).on_tape());
}

#[test]
fn print_char_emits_code_three() {
    assert_eq!(TAPE_SIZE, 10000);
    let (chunk, asked) = run("+++.", TAPE_SIZE);
    assert_eq!(asked, vec![Action::PrintChar { code: 3, end: ' ' }, Action::Done]);
    assert_eq!(chunk.get_memory_value(0), 3);
    assert!(chunk.finished());
}

#[test]
fn print_int_emits_three() {
    let (_, asked) = run("+++*", 10000);
    assert_eq!(asked, vec![Action::PrintInt { value: 3, end: ' ' }, Action::Done]);
}

#[test]
fn prompt_output_ends_in_newline() {
    let mut chunk = Chunk::new(program("+++.*"), 10, true);
    assert_eq!(
        drive(&mut chunk, &[]),
        vec![
            Action::PrintChar { code: 3, end: '\n' },
            Action::PrintInt { value: 3, end: '\n' },
            Action::Done
        ]
    );
}

#[test]
fn print_char_keeps_the_low_eight_bits() {
    for (value, code) in [(0, 0u8), (65, 65), (255, 255), (256, 0), (321, 65), (-1, 255), (-256, 0), (i32::MAX, 255), (i32::MIN, 0)] {
        let mut chunk = Chunk::with_state(program("."), vec![value], 0, false);
        assert_eq!(drive(&mut chunk, &[]), vec![Action::PrintChar { code, end: ' ' }, Action::Done]);
        assert_eq!(code, value as u8);
    }
}

#[test]
fn clear_loop_runs_three_times() {
    let mut chunk = Chunk::new(program("+++[-]"), 10000, false);
    let mut seen = vec![chunk.get_memory_value(0)];
    loop {
        match chunk.step() {
            Action::Next => {}
            Action::Done => break,
            other => panic!("unexpected {:?}", other),
        }
        if *seen.last().unwrap() != chunk.get_memory_value(0) {
            seen.push(chunk.get_memory_value(0));
        }
    }
    assert_eq!(seen, vec![0, 1, 2, 3, 2, 1, 0]);
    assert_eq!(chunk.get_memory_value(0), 0);
    assert_eq!(chunk.pointer(), 0);
    assert!(chunk.finished());
    assert!(!chunk.has_err());
}

#[test]
fn clear_loop_takes_two_transitions_a_round() {
    for count in 1..=6u64 {
        let mut chunk = Chunk::with_state(program("[-]+"), vec![7, count as i32], 1, false);
        assert_eq!(chunk.execute(2 * count), Action::Next);
        assert_eq!(chunk.get_memory_value(1), 0);
        assert_eq!(chunk.cursor(), 2);
        assert_eq!(chunk.step(), Action::Next);
        assert_eq!(chunk.cursor(), 3);
        assert_eq!(chunk.memory(), &vec![7, 0]);
        assert_eq!(chunk.pointer(), 1);
        assert_eq!(chunk.execute(2), Action::Done);
        assert_eq!(chunk.memory(), &vec![7, 1]);
    }
}

#[test]
fn left_at_the_boundary_is_no_move() {
    let (chunk, asked) = run("<<<+", 10000);
    assert_eq!(asked, vec![Action::Done]);
    assert_eq!(chunk.pointer(), 0);
    assert_eq!(chunk.get_memory_value(0), 1);
    assert!(chunk.memory()[1..].iter().all(|&cell| cell == 0));
    assert!(!chunk.has_err());
}

#[test]
fn nested_loops_as_they_are() {
    let (chunk, asked) = run("++[>+[>+<-]<-]", 10);
    assert_eq!(asked, vec![Action::Done]);
    assert_eq!(chunk.memory(), &vec![0, 0, 2, 0, 0, 0, 0, 0, 0, 0]);
    assert_eq!(chunk.pointer(), 0);

    let (chunk, _) = run("++[>++[>++<-]<-]", 10);
    assert_eq!(chunk.memory()[..3], [0, 0, 8]);
}

#[test]
fn inner_loop_end_closes_the_outer_loop_too() {
    // With loops matched by depth this would leave the tape all zero.
    let (chunk, asked) = run("++[>[>+<-]<-]", 10);
    assert_eq!(asked, vec![Action::Done]);
    assert_eq!(chunk.memory()[..3], [0, 0, 1]);
    assert_eq!(chunk.pointer(), 0);

    let (chunk, _) = run("+[-[+]]", 10);
    assert_eq!(chunk.memory()[..2], [1, 0]);
}

#[test]
fn loop_is_left_as_soon_as_its_cell_is_zero() {
    // The cell is zero after `-`; the rest of the body but one token runs
    // once more, as plain instructions.
    let (chunk, _) = run("++[->+<]", 10);
    assert_eq!(chunk.memory()[..2], [1, 1]);
    assert_eq!(chunk.pointer(), 0);
}

#[test]
fn loop_on_a_zero_cell_skips_one_token() {
    let (chunk, _) = run("[-]+", 10);
    assert_eq!(chunk.get_memory_value(0), 1);
    let (chunk, _) = run("[>+<]", 10);
    assert_eq!(chunk.memory()[..2], [1, 0]);
    assert_eq!(chunk.pointer(), 0);
    let (chunk, asked) = run("[", 10);
    assert_eq!(asked, vec![Action::Done]);
    assert!(!chunk.has_err());
}

#[test]
fn condition_is_read_at_the_address_of_loop_entry() {
    let (chunk, asked) = run("++[>+++<-]>*", 10);
    assert_eq!(asked, vec![Action::PrintInt { value: 6, end: ' ' }, Action::Done]);
    assert_eq!(chunk.memory()[..2], [0, 6]);
    assert_eq!(chunk.pointer(), 1);
}

#[test]
fn stray_loop_end_is_skipped() {
    let (chunk, asked) = run("]+]", 10);
    assert_eq!(asked, vec![Action::Done]);
    assert_eq!(chunk.get_memory_value(0), 1);
}

#[test]
fn unterminated_loop_fails() {
    let (chunk, asked) = run("+[", 10);
    assert_eq!(asked, vec![Action::Failed(Fault::UnterminatedLoop)]);
    assert!(chunk.has_err());
    assert!(!chunk.finished());
    assert_eq!(chunk.status(), Status::Failed(Fault::UnterminatedLoop));

    let (chunk, asked) = run("+[>+<", 10);
    assert_eq!(asked, vec![Action::Failed(Fault::UnterminatedLoop)]);
    assert_eq!(chunk.memory()[..2], [1, 1]);
}

#[test]
fn failure_is_reported_again_and_changes_nothing() {
    let (mut chunk, _) = run("+[", 10);
    let memory = chunk.memory().clone();
    for _ in 0..3 {
        assert_eq!(chunk.step(), Action::Failed(Fault::UnterminatedLoop));
        assert_eq!(chunk.execute(10), Action::Failed(Fault::UnterminatedLoop));
        assert_eq!(chunk.input("5"), Action::Next);
    }
    assert_eq!(chunk.memory(), &memory);
    assert!(chunk.has_err());
}

#[test]
fn end_is_reported_again() {
    let (mut chunk, _) = run("+", 10);
    assert_eq!(chunk.step(), Action::Done);
    assert_eq!(chunk.execute(5), Action::Done);
    assert_eq!(chunk.input("n"), Action::Next);
    assert!(chunk.finished());
    assert_eq!(chunk.get_memory_value(0), 1);
}

#[test]
fn cells_wrap_around() {
    let mut chunk = Chunk::with_state(program("+>-"), vec![i32::MAX, i32::MIN], 0, false);
    assert_eq!(drive(&mut chunk, &[]), vec![Action::Done]);
    assert_eq!(chunk.memory(), &vec![i32::MIN, i32::MAX]);
    assert_eq!(i32::MAX.wrapping_add(1), i32::MIN);
    assert_eq!(i32::MIN.wrapping_sub(1), i32::MAX);
}

#[test]
fn increment_and_decrement_undo_each_other() {
    for value in [0, 1, -1, 41, i32::MAX, i32::MIN] {
        let mut chunk = Chunk::with_state(Vec::new(), vec![value], 0, false);
        chunk.a_stmt();
        chunk.m_stmt();
        assert_eq!(chunk.get_memory_value(0), value);
        chunk.m_stmt();
        chunk.a_stmt();
        assert_eq!(chunk.get_memory_value(0), value);
    }
}

#[test]
fn read_input_stores_the_number() {
    let mut chunk = Chunk::new(program(",>,*"), 10, false);
    let asked = drive(&mut chunk, &["42\n", "  -7 \n"]);
    assert_eq!(
        asked,
        vec![Action::ReadInput, Action::ReadInput, Action::PrintInt { value: -7, end: ' ' }, Action::Done]
    );
    assert_eq!(chunk.memory()[..2], [42, -7]);
}

#[test]
fn read_input_waits_for_its_line() {
    let mut chunk = Chunk::new(program("+,+"), 10, false);
    assert_eq!(chunk.execute(BUDGET), Action::ReadInput);
    assert_eq!(chunk.status(), Status::AwaitNumber);
    assert_eq!(chunk.cursor(), 1);
    assert_eq!(chunk.step(), Action::ReadInput);
    assert_eq!(chunk.execute(BUDGET), Action::ReadInput);
    assert_eq!(chunk.get_memory_value(0), 1);
    assert_eq!(chunk.input("9"), Action::Next);
    assert_eq!(chunk.status(), Status::Ready);
    assert_eq!(chunk.cursor(), 2);
    assert_eq!(chunk.execute(BUDGET), Action::Done);
    assert_eq!(chunk.get_memory_value(0), 10);
}

#[test]
fn bad_input_ends_the_run() {
    let mut chunk = Chunk::new(program("+++,+++"), 10, false);
    let asked = drive(&mut chunk, &["three\n"]);
    assert_eq!(asked, vec![Action::ReadInput, Action::Failed(Fault::BadInput)]);
    assert!(chunk.has_err());
    assert!(!chunk.finished());
    assert_eq!(chunk.get_memory_value(0), 3);
    assert_eq!(chunk.execute(BUDGET), Action::Failed(Fault::BadInput));
    assert_eq!(chunk.get_memory_value(0), 3);
}

#[test]
fn input_inside_a_loop() {
    let mut chunk = Chunk::new(program("+[,]*"), 10, false);
    let asked = drive(&mut chunk, &["5", "2", "0"]);
    assert_eq!(
        asked,
        vec![
            Action::ReadInput,
            Action::ReadInput,
            Action::ReadInput,
            Action::PrintInt { value: 0, end: ' ' },
            Action::Done
        ]
    );
    assert_eq!(chunk.get_memory_value(0), 0);
}

#[test]
fn right_of_the_tape_is_a_fault_on_access() {
    let (chunk, asked) = run(">", 1);
    assert_eq!(asked, vec![Action::Done]);
    assert_eq!(chunk.pointer(), 1);
    assert!(!chunk.on_tape());

    for source in [">+", ">-", ">.", ">*", ">[", "+>[-]"] {
        let (chunk, asked) = run(source, 1);
        assert_eq!(asked, vec![Action::Failed(Fault::OutOfTape)], "{:?}", source);
        assert!(chunk.has_err());
    }

    let (chunk, asked) = run("><+", 1);
    assert_eq!(asked, vec![Action::Done]);
    assert_eq!(chunk.get_memory_value(0), 1);

    let mut chunk = Chunk::new(program(">,"), 1, false);
    assert_eq!(drive(&mut chunk, &["1"]), vec![Action::ReadInput, Action::Failed(Fault::OutOfTape)]);
    let mut chunk = Chunk::new(program(">,"), 1, false);
    assert_eq!(drive(&mut chunk, &["x"]), vec![Action::ReadInput, Action::Failed(Fault::BadInput)]);
}

#[test]
fn runaway_loop_leaves_the_tape() {
    let (chunk, asked) = run("+[>+]", 10);
    assert_eq!(asked, vec![Action::Failed(Fault::OutOfTape)]);
    assert_eq!(chunk.memory(), &vec![1; 10]);
    assert_eq!(chunk.pointer(), 10);
}

#[test]
fn pointer_cannot_pass_the_largest_address() {
    let mut chunk = Chunk::with_state(program(">"), vec![0; 4], i32::MAX - 1, false);
    assert_eq!(chunk.step(), Action::Next);
    assert_eq!(chunk.pointer(), i32::MAX);
    let mut chunk = Chunk::with_state(program(">"), vec![0; 4], i32::MAX, false);
    assert_eq!(chunk.step(), Action::Failed(Fault::OutOfTape));
    assert_eq!(chunk.pointer(), i32::MAX);
    assert!(chunk.has_err());
}

#[test]
fn pointer_left_of_the_tape_is_off_the_tape() {
    let mut chunk = Chunk::with_state(program("<+"), vec![0; 4], -3, false);
    assert!(!chunk.on_tape());
    assert_eq!(chunk.step(), Action::Next);
    assert_eq!(chunk.pointer(), -3);
    assert_eq!(chunk.step(), Action::Failed(Fault::OutOfTape));
}

#[test]
fn dump_of_a_short_tape_is_one_part() {
    let (chunk, asked) = run("!+", 10);
    assert_eq!(asked, vec![Action::DumpMemory { from: 0, to: 10 }, Action::Done]);
    assert_eq!(chunk.get_memory_value(0), 1);
    let (_, asked) = run("!", 49);
    assert_eq!(asked, vec![Action::DumpMemory { from: 0, to: 49 }, Action::Done]);
    let (_, asked) = run("!", 0);
    assert_eq!(asked, vec![Action::DumpMemory { from: 0, to: 0 }, Action::Done]);
}

#[test]
fn dump_asks_every_fifty_cells() {
    assert_eq!(PAGE, 50);
    let mut chunk = Chunk::new(program("!+"), 10000, false);
    assert_eq!(chunk.execute(BUDGET), Action::DumpMemory { from: 0, to: 50 });
    assert_eq!(chunk.status(), Status::AwaitReply { next: 50 });
    assert_eq!(chunk.execute(BUDGET), Action::AskNext);
    assert_eq!(chunk.step(), Action::AskNext);
    assert_eq!(chunk.input("n\n"), Action::DumpMemory { from: 50, to: 100 });
    assert_eq!(chunk.execute(BUDGET), Action::AskNext);
    assert_eq!(chunk.input("n"), Action::DumpMemory { from: 100, to: 150 });
    assert_eq!(chunk.execute(BUDGET), Action::AskNext);
    assert_eq!(chunk.get_memory_value(0), 0);
    assert_eq!(chunk.input("q\n"), Action::Next);
    assert_eq!(chunk.status(), Status::Ready);
    assert_eq!(chunk.execute(BUDGET), Action::Done);
    assert_eq!(chunk.get_memory_value(0), 1);
}

#[test]
fn dump_cut_short_at_the_first_question_shows_fifty_cells() {
    let mut chunk = Chunk::new(program("!"), 10000, false);
    assert_eq!(
        drive(&mut chunk, &["no"]),
        vec![Action::DumpMemory { from: 0, to: 50 }, Action::AskNext, Action::Done]
    );
}

#[test]
fn dump_shows_fifty_cells_for_each_go() {
    for goes in 0..5usize {
        let mut chunk = Chunk::new(program("!"), 10000, false);
        let mut lines = vec!["n"; goes];
        lines.push("stop");
        let asked = drive(&mut chunk, &lines);
        let shown: usize = asked
            .iter()
            .map(|a| match a {
                Action::DumpMemory { from, to } => to - from,
                _ => 0,
            })
            .sum();
        assert_eq!(shown, 50 * (goes + 1));
        assert_eq!(asked.last(), Some(&Action::Done));
    }
}

#[test]
fn dump_to_the_end_of_the_tape() {
    let mut chunk = Chunk::new(program("!"), 10000, false);
    let lines = vec!["n"; 300];
    let asked = drive(&mut chunk, &lines);
    let parts: Vec<(usize, usize)> = asked
        .iter()
        .filter_map(|a| match a {
            Action::DumpMemory { from, to } => Some((*from, *to)),
            _ => None,
        })
        .collect();
    assert_eq!(parts[0], (0, 50));
    assert_eq!(parts[1], (50, 100));
    assert_eq!(parts[199], (9950, 10000));
    assert_eq!(parts[200], (10000, 10000));
    assert_eq!(parts.len(), 201);
    for pair in parts.windows(2) {
        assert_eq!(pair[0].1, pair[1].0);
    }
    assert_eq!(asked.iter().filter(|a| **a == Action::AskNext).count(), 200);
    assert_eq!(asked.last(), Some(&Action::Done));
}

#[test]
fn dump_of_a_tape_that_ends_inside_a_part() {
    let mut chunk = Chunk::new(program("!"), 50, false);
    assert_eq!(chunk.execute(BUDGET), Action::DumpMemory { from: 0, to: 50 });
    assert_eq!(chunk.execute(BUDGET), Action::AskNext);
    assert_eq!(chunk.input("n"), Action::DumpMemory { from: 50, to: 50 });
    assert_eq!(chunk.execute(BUDGET), Action::Done);

    let mut chunk = Chunk::new(program("!"), 120, false);
    assert_eq!(
        drive(&mut chunk, &["n", "n", "n"]),
        vec![
            Action::DumpMemory { from: 0, to: 50 },
            Action::AskNext,
            Action::DumpMemory { from: 50, to: 100 },
            Action::AskNext,
            Action::DumpMemory { from: 100, to: 120 },
            Action::Done
        ]
    );
}

#[test]
fn dump_only_reads() {
    let mut chunk = Chunk::with_state(program("+"), vec![4, 5, 6], 2, false);
    assert_eq!(chunk.t_stmt(), Action::DumpMemory { from: 0, to: 3 });
    assert_eq!(chunk.statement(TypeDef::DumpMemory), Action::DumpMemory { from: 0, to: 3 });
    assert_eq!(chunk.memory(), &vec![4, 5, 6]);
    assert_eq!(chunk.pointer(), 2);
    assert_eq!(chunk.cursor(), 0);
    assert_eq!(chunk.depth(), 0);
    assert_eq!(chunk.status(), Status::Ready);
    assert!(!chunk.has_err());
}

#[test]
fn dump_does_not_clear_a_failure() {
    for size in [3, 10000] {
        for fault in [Fault::BadInput, Fault::UnterminatedLoop, Fault::OutOfTape] {
            let mut chunk = Chunk::new(program("+"), size, false);
            chunk.handle_err(fault);
            assert_eq!(chunk.t_stmt(), Action::Failed(fault));
            assert!(chunk.has_err());
            assert_eq!(chunk.status(), Status::Failed(fault));
            assert_eq!(chunk.statement(TypeDef::DumpMemory), Action::Failed(fault));
            assert_eq!(chunk.status(), Status::Failed(fault));
            assert_eq!(chunk.statement(TypeDef::ReadInput), Action::Failed(fault));
            assert_eq!(chunk.status(), Status::Failed(fault));
            assert_eq!(chunk.input("n"), Action::Next);
            assert!(chunk.has_err());
            assert!(!chunk.finished());
        }
    }
}

#[test]
fn no_statement_clears_a_failure() {
    for typedef in program("<>+-[].,!*").iter().map(|t| t.typedef) {
        for p in [0, 1, 5, i32::MAX] {
            let mut chunk = Chunk::with_state(program("+"), vec![1, 2], p, true);
            chunk.handle_err(Fault::BadInput);
            chunk.statement(typedef);
            assert!(chunk.has_err(), "{:?} at {}", typedef, p);
            chunk.c_stmt("12");
            assert!(chunk.has_err());
        }
    }
}

#[test]
fn waiting_run_is_not_disturbed_by_dump_or_input_statements() {
    let mut chunk = Chunk::new(program(",+"), 10000, false);
    assert_eq!(chunk.execute(BUDGET), Action::ReadInput);
    assert_eq!(chunk.t_stmt(), Action::ReadInput);
    assert_eq!(chunk.statement(TypeDef::DumpMemory), Action::ReadInput);
    assert_eq!(chunk.statement(TypeDef::ReadInput), Action::ReadInput);
    assert_eq!(chunk.status(), Status::AwaitNumber);

    let mut chunk = Chunk::new(program("!+"), 10000, false);
    assert_eq!(chunk.execute(BUDGET), Action::DumpMemory { from: 0, to: 50 });
    assert_eq!(chunk.input("n"), Action::DumpMemory { from: 50, to: 100 });
    assert_eq!(chunk.t_stmt(), Action::AskNext);
    assert_eq!(chunk.statement(TypeDef::ReadInput), Action::AskNext);
    assert_eq!(chunk.status(), Status::AwaitReply { next: 100 });
}

#[test]
fn run_from_source() {
    let mut chunk = Chunk::from_source("+++ # three\n.", 10, false).unwrap();
    assert_eq!(chunk.memory(), &vec![0; 10]);
    assert_eq!(chunk.pointer(), 0);
    assert_eq!(chunk.cursor(), 0);
    assert_eq!(drive(&mut chunk, &[]), vec![Action::PrintChar { code: 3, end: ' ' }, Action::Done]);
    let mut chunk = Chunk::from_source("*", 1, true).unwrap();
    assert_eq!(drive(&mut chunk, &[]), vec![Action::PrintInt { value: 0, end: '\n' }, Action::Done]);
    assert!(Chunk::from_source("", 10, false).unwrap().finished());
}

#[test]
fn text_with_an_unknown_character_gives_no_run() {
    assert!(Chunk::from_source("+++ @ ---", 10, false).is_none());
    assert!(Chunk::from_source("help", 10, true).is_none());
    assert!(Chunk::from_source("+\n+\n1", 0, false).is_none());
}

#[test]
fn budget_bounds_a_loop_that_never_ends() {
    let mut chunk = Chunk::new(program("+[]"), 10, false);
    assert_eq!(chunk.execute(1000), Action::Next);
    assert!(!chunk.finished());
    assert!(!chunk.has_err());
    assert_eq!(chunk.execute(0), Action::Next);
    assert_eq!(chunk.get_memory_value(0), 1);
}

#[test]
fn budget_may_be_spent_in_parts() {
    for source in ["+++[-]>+.", "++[>+[>+<-]<-]", "+[", "+[]", "+,+", "!"] {
        for first in 0..12u64 {
            let mut whole = Chunk::new(program(source), 60, false);
            let mut parts = Chunk::new(program(source), 60, false);
            let at_once = whole.execute(first + 7);
            let begun = parts.execute(first);
            let in_parts = if begun == Action::Next { parts.execute(7) } else { begun };
            assert_eq!(at_once, in_parts, "{:?} {}", source, first);
            assert_eq!(whole.memory(), parts.memory());
            assert_eq!(whole.pointer(), parts.pointer());
            assert_eq!(whole.cursor(), parts.cursor());
            assert_eq!(whole.status(), parts.status());
        }
    }
}

#[test]
fn statements_one_by_one() {
    let mut chunk = Chunk::with_state(Vec::new(), vec![5, 7], 0, true);
    assert_eq!(chunk.statement(TypeDef::MoveLeft), Action::Next);
    assert_eq!(chunk.pointer(), 0);
    assert_eq!(chunk.statement(TypeDef::MoveRight), Action::Next);
    assert_eq!(chunk.pointer(), 1);
    assert_eq!(chunk.statement(TypeDef::Increment), Action::Next);
    assert_eq!(chunk.statement(TypeDef::PrintInt), Action::PrintInt { value: 8, end: '\n' });
    assert_eq!(chunk.statement(TypeDef::Decrement), Action::Next);
    assert_eq!(chunk.statement(TypeDef::PrintChar), Action::PrintChar { code: 7, end: '\n' });
    assert_eq!(chunk.statement(TypeDef::LoopEnd), Action::Next);
    assert_eq!(chunk.statement(TypeDef::MoveLeft), Action::Next);
    assert_eq!(chunk.pointer(), 0);
    assert_eq!(chunk.statement(TypeDef::DumpMemory), Action::DumpMemory { from: 0, to: 2 });
    assert_eq!(chunk.statement(TypeDef::ReadInput), Action::ReadInput);
    assert_eq!(chunk.status(), Status::AwaitNumber);
    assert_eq!(chunk.memory(), &vec![5, 7]);
    assert_eq!(chunk.cursor(), 0);
}

#[test]
fn plain_statements() {
    let mut chunk = Chunk::with_state(program("[+"), vec![0, 9], 0, false);
    chunk.r_stmt();
    assert_eq!(chunk.pointer(), 1);
    chunk.a_stmt();
    assert_eq!(chunk.get_memory_value(1), 10);
    assert_eq!(chunk.d_stmt(), Action::PrintChar { code: 10, end: ' ' });
    assert_eq!(chunk.s_stmt(), Action::PrintInt { value: 10, end: ' ' });
    chunk.c_stmt(" 77\n");
    assert_eq!(chunk.get_memory_value(1), 77);
    assert!(!chunk.has_err());
    chunk.l_stmt();
    chunk.l_stmt();
    assert_eq!(chunk.pointer(), 0);
    chunk.m_stmt();
    assert_eq!(chunk.get_memory_value(0), -1);
    chunk.rb_stmt();
    assert_eq!(chunk.cursor(), 0);
    chunk.lb_stmt();
    assert_eq!(chunk.cursor(), 1);
    assert_eq!(chunk.t_stmt(), Action::DumpMemory { from: 0, to: 2 });
    chunk.c_stmt("seven");
    assert!(chunk.has_err());
    assert_eq!(chunk.status(), Status::Failed(Fault::BadInput));
    assert_eq!(chunk.memory(), &vec![-1, 77]);
    chunk.handle_err(Fault::UnterminatedLoop);
    assert_eq!(chunk.status(), Status::Failed(Fault::UnterminatedLoop));
    assert_eq!(chunk.into_memory(), vec![-1, 77]);
}

#[test]
fn line_for_a_run_that_waits_for_none_is_let_pass() {
    let mut chunk = Chunk::new(program("+"), 10, false);
    assert_eq!(chunk.input("5"), Action::Next);
    assert_eq!(chunk.cursor(), 0);
    assert_eq!(chunk.get_memory_value(0), 0);
    assert_eq!(chunk.execute(BUDGET), Action::Done);
    assert_eq!(chunk.get_memory_value(0), 1);
}
