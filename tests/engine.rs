use bf_engine::{Environment, Fault};

fn run_to_end(code: &str) -> (Environment, Result<bool, Fault>) {
    let mut env = Environment::init(code.to_string());
    let r = env.run(10_000);
    (env, r)
}

#[test]
fn noop_program_runs_silently() {
    let (env, r) = run_to_end("hello world, nothing here\n");
    assert_eq!(r, Ok(true));
    assert!(env.output().is_empty());
    assert_eq!(env.registers(), &vec![0u64]);
    assert_eq!(env.current_register(), 0);
}

#[test]
fn empty_program_ends_at_once() {
    let mut env = Environment::init(String::new());
    assert_eq!(env.run(0), Ok(true));
    assert!(env.output().is_empty());
}

#[test]
fn noop_program_takes_one_step_per_character() {
    let mut env = Environment::init("abc".to_string());
    assert_eq!(env.run(2), Ok(false));
    assert_eq!(env.run(1), Ok(true));
    assert!(env.output().is_empty());
}

#[test]
fn three_increments_then_print_emits_three() {
    let (env, r) = run_to_end("+++.");
    assert_eq!(r, Ok(true));
    assert_eq!(env.output(), &vec![3u64]);
}

#[test]
fn last_character_is_evaluated() {
    let (env, r) = run_to_end("+.");
    assert_eq!(r, Ok(true));
    assert_eq!(env.output(), &vec![1u64]);
    let (env, r) = run_to_end("+. ");
    assert_eq!(r, Ok(true));
    assert_eq!(env.output(), &vec![1u64]);
}

#[test]
fn one_character_program_is_evaluated() {
    let (env, r) = run_to_end(".");
    assert_eq!(r, Ok(true));
    assert_eq!(env.output(), &vec![0u64]);
}

#[test]
fn countdown_loop_leaves_zero() {
    let (env, r) = run_to_end("+++++[-]");
    assert_eq!(r, Ok(true));
    assert_eq!(env.read_register(), 0);
    assert_eq!(env.registers(), &vec![0u64]);
}

#[test]
fn move_right_increment_move_left() {
    let (env, r) = run_to_end(">+<");
    assert_eq!(r, Ok(true));
    assert_eq!(env.registers(), &vec![0u64, 1]);
    assert_eq!(env.current_register(), 0);
}

#[test]
fn move_right_grows_only_at_the_last_cell() {
    let (env, r) = run_to_end("><>");
    assert_eq!(r, Ok(true));
    assert_eq!(env.registers().len(), 2);
    assert_eq!(env.current_register(), 1);
    let (env, _) = run_to_end(">>>");
    assert_eq!(env.registers(), &vec![0u64, 0, 0, 0]);
}

#[test]
fn lone_closing_bracket_is_unmatched() {
    let (_, r) = run_to_end("]");
    assert_eq!(r, Err(Fault::UnmatchedBracket));
}

#[test]
fn unclosed_skip_is_malformed() {
    let (env, r) = run_to_end("[");
    assert_eq!(r, Err(Fault::MalformedProgram));
    assert_eq!(env.registers(), &vec![0u64]);
    let (_, r) = run_to_end("+-[+++");
    assert_eq!(r, Err(Fault::MalformedProgram));
}

#[test]
fn copy_loop_moves_value() {
    let (env, r) = run_to_end("+++[>+<-]");
    assert_eq!(r, Ok(true));
    assert_eq!(env.registers(), &vec![0u64, 3]);
}

#[test]
fn nested_loop_body_runs_each_time() {
    let (env, r) = run_to_end("++[>+++[>+<-]<-]>>.");
    // Leaving the outer loop skips only to the inner `]`, after which `<`
    // stands on the first cell.
    assert_eq!(r, Err(Fault::CursorUnderflow));
    // By then the body has run twice, filling cell 2 with six.
    assert_eq!(env.registers(), &vec![0u64, 0, 6]);
    assert_eq!(env.current_register(), 0);
    assert!(env.output().is_empty());
}

#[test]
fn skip_scan_keeps_no_nesting_count() {
    // The skip stops at the inner `]`; the outer `]` then finds no open loop.
    let (_, r) = run_to_end("[[]+]");
    assert_eq!(r, Err(Fault::UnmatchedBracket));
}

#[test]
fn move_left_at_first_cell_faults() {
    let (env, r) = run_to_end("+.<");
    assert_eq!(r, Err(Fault::CursorUnderflow));
    assert_eq!(env.output(), &vec![1u64]);
    assert_eq!(env.read_register(), 1);
}

#[test]
fn decrement_of_zero_faults() {
    let (env, r) = run_to_end("+--");
    assert_eq!(r, Err(Fault::ArithmeticUnderflow));
    assert_eq!(env.read_register(), 0);
}

#[test]
fn endless_loop_runs_out_of_steps() {
    let mut env = Environment::init("+[]".to_string());
    assert_eq!(env.run(1000), Ok(false));
    assert_eq!(env.run(1000), Ok(false));
    assert_eq!(env.read_register(), 1);
}

#[test]
fn output_can_be_taken_between_runs() {
    let mut env = Environment::init("+.+.".to_string());
    assert_eq!(env.run(2), Ok(false));
    assert_eq!(env.take_output(), vec![1u64]);
    assert!(env.output().is_empty());
    assert_eq!(env.run(10), Ok(true));
    assert_eq!(env.take_output(), vec![2u64]);
}

#[test]
fn non_ascii_characters_are_noops() {
    let (env, r) = run_to_end("é+ü.ß");
    assert_eq!(r, Ok(true));
    assert_eq!(env.output(), &vec![1u64]);
}

#[test]
fn instructions_are_read_by_position() {
    let env = Environment::init("a+é".to_string());
    assert_eq!(env.get_instruction(0), 'a');
    assert_eq!(env.get_instruction(2), 'é');
    assert_eq!(env.get_current_instruction(), 'a');
}

#[test]
fn single_steps_through_eval() {
    let mut env = Environment::init("[+]".to_string());
    // A zero counter skips past the `]`.
    assert_eq!(env.eval('['), Ok(()));
    assert_eq!(env.run(0), Ok(true));

    let mut env = Environment::init("x+[-]".to_string());
    env.plus();
    env.next_instruction();
    assert_eq!(env.get_current_instruction(), '[');
    assert_eq!(env.jump_open(), Ok(()));
    assert_eq!(env.get_current_instruction(), '-');
    assert_eq!(env.min(), Ok(()));
    assert_eq!(env.jump_closed(), Ok(()));
    assert_eq!(env.get_current_instruction(), '[');
    assert_eq!(env.jump_open(), Ok(()));
    assert_eq!(env.run(10), Ok(true));
    assert_eq!(env.read_register(), 0);
}

#[test]
fn primitive_moves_and_print() {
    let mut env = Environment::init("abcdefg".to_string());
    env.next_register();
    env.plus();
    env.print();
    assert_eq!(env.previous_register(), Ok(()));
    assert_eq!(env.previous_register(), Err(Fault::CursorUnderflow));
    env.ignore();
    assert_eq!(env.min(), Err(Fault::ArithmeticUnderflow));
    assert_eq!(env.jump_closed(), Err(Fault::UnmatchedBracket));
    assert_eq!(env.jump_after_closed(), Err(Fault::MalformedProgram));
    assert_eq!(env.output(), &vec![1u64]);
    assert_eq!(env.registers(), &vec![0u64, 1]);
    assert_eq!(env.get_current_instruction(), 'f');
}
