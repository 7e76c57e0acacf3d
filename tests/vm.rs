use tablang::lexer::Lexer;
use tablang::parser::Parser;
use tablang::vm::{Halt, RuntimeError, Vm};

const FUEL: u64 = 1_000_000;

fn run(text: &str) -> (Vm, Result<(), Halt>) {
    let mut lexer = Lexer::new(text.into());
    let tokens = lexer.lex().unwrap().tokens;
    let program = Parser::new(tokens).parse_program().unwrap();
    let mut vm = Vm::new(program);
    let r = vm.run(FUEL);
    (vm, r)
}

fn output(vm: &Vm) -> String {
    vm.output.iter().collect()
}

#[test]
fn increments_then_prints() {
    let (vm, r) = run("[4]++.");
    assert_eq!(r, Ok(()));
    assert_eq!(vm.program.table.size, 4);
    assert_eq!(vm.program.table.curr, 0);
    assert_eq!(output(&vm), "2");
}

#[test]
fn moves_right_to_a_fresh_cell() {
    let (vm, r) = run("[4]+++>.");
    assert_eq!(r, Ok(()));
    assert_eq!(vm.program.table.curr, 1);
    assert_eq!(vm.program.table.array[0], 3);
    assert_eq!(output(&vm), "0");
}

#[test]
fn loop_stops_at_its_terminator() {
    let (vm, r) = run("[2]+{.+}(3)");
    assert_eq!(r, Ok(()));
    assert_eq!(output(&vm), "12");
    assert_eq!(vm.program.table.array[0], 3);
}

#[test]
fn functions_run_on_each_call() {
    let (vm, r) = run(":(0)+;^(0)^(0).");
    assert_eq!(r, Ok(()));
    assert_eq!(vm.program.table.size, 256);
    assert_eq!(output(&vm), "2");
}

#[test]
fn goto_past_the_table_is_fatal() {
    let (vm, r) = run("[4]@(4).");
    assert_eq!(r, Err(Halt::Fault(RuntimeError::IndexOutOfBounds(4))));
    assert_eq!(vm.program.table.curr, 0);
    assert_eq!(output(&vm), "");
    let (vm, r) = run("[4]@(3)+.");
    assert_eq!(r, Ok(()));
    assert_eq!(vm.program.table.curr, 3);
    assert_eq!(output(&vm), "1");
}

#[test]
fn goto_to_unset_saved_register_is_fatal() {
    let (_, r) = run("[4]@($)");
    assert_eq!(r, Err(Halt::Fault(RuntimeError::IndexOutOfBounds(usize::MAX))));
}

#[test]
fn output_before_a_fault_is_kept() {
    let (vm, r) = run("[2]+.=(9).");
    assert_eq!(r, Err(Halt::Fault(RuntimeError::IndexOutOfBounds(9))));
    assert_eq!(output(&vm), "1");
}

#[test]
fn calling_an_undefined_function_is_fatal() {
    let (_, r) = run("^(7)");
    assert_eq!(r, Err(Halt::Fault(RuntimeError::UndefinedFunction(7))));
}

#[test]
fn default_table_has_256_cells() {
    let (vm, r) = run("+");
    assert_eq!(r, Ok(()));
    assert_eq!(vm.program.table.array.len(), 256);
    assert_eq!(vm.program.table.curr, 0);
}

#[test]
fn increment_at_the_top_is_a_no_op() {
    let (vm, _) = run("[1][9223372036854775807]+.");
    assert_eq!(output(&vm), "9223372036854775807");
}

#[test]
fn decrement_at_the_bottom_is_a_no_op() {
    let (vm, _) = run("[1][9223372036854775808]-.");
    assert_eq!(output(&vm), "-9223372036854775808");
}

#[test]
fn doubling_out_of_range_is_a_no_op() {
    let (vm, _) = run("[1][4611686018427387904]*.");
    assert_eq!(output(&vm), "4611686018427387904");
    let (vm, _) = run("[1][21]*.");
    assert_eq!(output(&vm), "42");
}

#[test]
fn halving_rounds_toward_zero() {
    let (vm, _) = run("[1][7]/._[7]~/.");
    assert_eq!(output(&vm), "3\n-3");
}

#[test]
fn modulo_keeps_the_sign() {
    let (vm, _) = run("[1][7]%._[7]~%._[8]%.");
    assert_eq!(output(&vm), "1\n-1\n0");
}

#[test]
fn flipping_the_minimum_is_a_no_op() {
    let (vm, _) = run("[1][9223372036854775808]~.");
    assert_eq!(output(&vm), "-9223372036854775808");
}

#[test]
fn large_literal_wraps_into_the_cell() {
    let (vm, _) = run("[1][18446744073709551615].");
    assert_eq!(output(&vm), "-1");
}

#[test]
fn print_ascii_uses_the_low_byte() {
    let (vm, _) = run("[1][72]&[105]&[328]&[184]~&");
    assert_eq!(output(&vm), "HiHH");
}

#[test]
fn moves_are_clamped_at_both_ends() {
    let (vm, _) = run("[2]<<>>>");
    assert_eq!(vm.program.table.curr, 1);
    let (vm, _) = run("[2]><<<");
    assert_eq!(vm.program.table.curr, 0);
}

#[test]
fn copy_twice_leaves_the_cell_unchanged() {
    let (vm, _) = run("[4][5]>=(0).=(0).");
    assert_eq!(output(&vm), "55");
    assert_eq!(vm.program.table.array[1], 5);
}

#[test]
fn saved_register_feeds_copy_and_if() {
    let (vm, r) = run("[4]+++$>=($).?($)[9].;");
    assert_eq!(r, Ok(()));
    assert_eq!(output(&vm), "39");
    assert_eq!(vm.program.table.saved, 0);
}

#[test]
fn if_skips_when_the_cell_differs() {
    let (vm, _) = run("[1]+?(2).;?(1)_;");
    assert_eq!(output(&vm), "\n");
}

#[test]
fn loop_checks_the_cell_under_the_cursor() {
    let (vm, r) = run("[3]+>++<{>}(2)");
    assert_eq!(r, Ok(()));
    assert_eq!(vm.program.table.curr, 1);
}

#[test]
fn loop_may_run_zero_times() {
    let (vm, r) = run("[1]{.}");
    assert_eq!(r, Ok(()));
    assert_eq!(output(&vm), "");
}

#[test]
fn endless_loop_runs_out_of_fuel() {
    let (_, r) = run("[1]+{}");
    assert_eq!(r, Err(Halt::OutOfFuel));
}

#[test]
fn empty_table_faults_on_cell_access() {
    let (_, r) = run("[0]+");
    assert_eq!(r, Err(Halt::Fault(RuntimeError::IndexOutOfBounds(0))));
}

#[test]
fn execute_runs_one_statement() {
    let mut lexer = Lexer::new("[2]".into());
    let tokens = lexer.lex().unwrap().tokens;
    let program = Parser::new(tokens).parse_program().unwrap();
    let mut other = Lexer::new("+".into());
    let extra = Parser::new(other.lex().unwrap().tokens).parse_program().unwrap();
    let mut vm = Vm::new(program);
    assert_eq!(vm.execute(&extra.statements[0], 1), Ok(()));
    assert_eq!(vm.program.table.array[0], 1);
    assert_eq!(vm.execute(&extra.statements[0], 0), Err(Halt::OutOfFuel));
}
