use postfix_calc::driver::run_line;
use postfix_calc::machine::execute;
use postfix_calc::opcode::Instruction;
use postfix_calc::parse::{parse_line, parse_texto};

fn bits(x: f64) -> u64 {
    x.to_bits()
}

fn run_one(line: &str) -> Vec<u64> {
    let mut stack: Vec<u64> = Vec::new();
    run_line(line, &mut stack);
    stack
}

#[test]
fn ldc_pushes_constant() {
    assert_eq!(run_one("ldc:2.5"), vec![bits(2.5)]);
}

#[test]
fn ldc_appends_at_top() {
    let mut stack = vec![bits(1.0)];
    run_line("ldc:7", &mut stack);
    assert_eq!(stack, vec![bits(1.0), bits(7.0)]);
}

#[test]
fn ldc_negative_and_scientific() {
    assert_eq!(run_one("ldc:-2.5"), vec![bits(-2.5)]);
    assert_eq!(run_one("ldc:2.5e3"), vec![bits(2500.0)]);
}

#[test]
fn unknown_token_yields_no_opcode() {
    assert_eq!(parse_texto("foo"), None);
    assert_eq!(parse_texto("Add"), None);
    assert_eq!(parse_texto("ad"), None);
    assert_eq!(parse_texto("adds"), None);
    assert_eq!(parse_texto(""), None);
}

#[test]
fn malformed_ldc_yields_no_opcode() {
    assert_eq!(parse_texto("ldc:abc"), None);
    assert_eq!(parse_texto("ldc:"), None);
    assert_eq!(parse_texto("ldc:1.2.3"), None);
}

#[test]
fn unknown_token_leaves_stack_unchanged() {
    let mut stack = vec![bits(4.0)];
    run_line("foo ldc:abc", &mut stack);
    assert_eq!(stack, vec![bits(4.0)]);
}

#[test]
fn keywords_parse_exactly() {
    assert_eq!(parse_texto("neg"), Some(Instruction::Neg));
    assert_eq!(parse_texto("add"), Some(Instruction::Add));
    assert_eq!(parse_texto("sub"), Some(Instruction::Sub));
    assert_eq!(parse_texto("mul"), Some(Instruction::Mul));
    assert_eq!(parse_texto("div"), Some(Instruction::Div));
    assert_eq!(parse_texto("ceq"), Some(Instruction::Ceq));
    assert_eq!(parse_texto("cgt"), Some(Instruction::Cgt));
    assert_eq!(parse_texto("clt"), Some(Instruction::Clt));
    assert_eq!(parse_texto("dup"), Some(Instruction::Dup));
    assert_eq!(parse_texto("pop"), Some(Instruction::Pop));
    assert_eq!(parse_texto("ldc:3.5"), Some(Instruction::Ldc(bits(3.5))));
}

#[test]
fn parse_line_drops_bad_tokens_keeps_order() {
    assert_eq!(
        parse_line("ldc:1 bogus add"),
        vec![Instruction::Ldc(bits(1.0)), Instruction::Add]
    );
}

#[test]
fn underflow_binary_leaves_stack_unchanged() {
    for op in ["add", "sub", "mul", "div", "ceq", "cgt", "clt"] {
        let mut stack = vec![bits(9.0)];
        run_line(op, &mut stack);
        assert_eq!(stack, vec![bits(9.0)], "operator {op}");
        let mut empty: Vec<u64> = Vec::new();
        run_line(op, &mut empty);
        assert_eq!(empty, Vec::<u64>::new(), "operator {op}");
    }
}

#[test]
fn underflow_unary_leaves_stack_unchanged() {
    for op in ["neg", "dup", "pop"] {
        let mut empty: Vec<u64> = Vec::new();
        run_line(op, &mut empty);
        assert_eq!(empty, Vec::<u64>::new(), "operator {op}");
    }
}

#[test]
fn underflow_then_execution_continues() {
    assert_eq!(run_one("ldc:1 add ldc:2 add"), vec![bits(3.0)]);
}

#[test]
fn addition() {
    assert_eq!(run_one("ldc:2 ldc:3 add"), vec![bits(5.0)]);
}

#[test]
fn subtraction_order() {
    assert_eq!(run_one("ldc:10 ldc:4 sub"), vec![bits(6.0)]);
}

#[test]
fn multiplication() {
    assert_eq!(run_one("ldc:6 ldc:7 mul"), vec![bits(42.0)]);
}

#[test]
fn division_order() {
    assert_eq!(run_one("ldc:1 ldc:8 div"), vec![bits(0.125)]);
}

#[test]
fn division_by_zero_is_infinity() {
    assert_eq!(run_one("ldc:10 ldc:0 div"), vec![bits(f64::INFINITY)]);
}

#[test]
fn zero_by_zero_is_nan() {
    let stack = run_one("ldc:0 ldc:0 div");
    assert_eq!(stack.len(), 1);
    assert!(f64::from_bits(stack[0]).is_nan());
}

#[test]
fn negation() {
    assert_eq!(run_one("ldc:5 neg"), vec![bits(-5.0)]);
}

#[test]
fn negation_of_zero_is_negative_zero() {
    assert_eq!(run_one("ldc:0 neg"), vec![bits(-0.0)]);
}

#[test]
fn less_than_true() {
    assert_eq!(run_one("ldc:3 ldc:5 clt"), vec![bits(1.0)]);
}

#[test]
fn greater_than_false() {
    assert_eq!(run_one("ldc:3 ldc:5 cgt"), vec![bits(0.0)]);
}

#[test]
fn greater_than_true() {
    assert_eq!(run_one("ldc:5 ldc:3 cgt"), vec![bits(1.0)]);
}

#[test]
fn less_than_false_on_equal() {
    assert_eq!(run_one("ldc:5 ldc:5 clt"), vec![bits(0.0)]);
}

#[test]
fn equal_true() {
    assert_eq!(run_one("ldc:4 ldc:4 ceq"), vec![bits(1.0)]);
}

#[test]
fn equal_false() {
    assert_eq!(run_one("ldc:4 ldc:5 ceq"), vec![bits(0.0)]);
}

#[test]
fn nan_is_not_equal_to_itself() {
    assert_eq!(run_one("ldc:nan dup ceq"), vec![bits(0.0)]);
}

#[test]
fn stack_persists_across_lines() {
    let mut stack: Vec<u64> = Vec::new();
    run_line("ldc:1 ldc:2", &mut stack);
    assert_eq!(stack, vec![bits(1.0), bits(2.0)]);
    run_line("add", &mut stack);
    assert_eq!(stack, vec![bits(3.0)]);
}

#[test]
fn dup_then_pop_restores_stack() {
    assert_eq!(run_one("ldc:7 dup pop"), vec![bits(7.0)]);
}

#[test]
fn dup_duplicates_top() {
    assert_eq!(run_one("ldc:7 dup"), vec![bits(7.0), bits(7.0)]);
}

#[test]
fn pop_removes_top() {
    assert_eq!(run_one("ldc:1 ldc:2 pop"), vec![bits(1.0)]);
}

#[test]
fn empty_line_changes_nothing() {
    let mut stack = vec![bits(8.0)];
    run_line("", &mut stack);
    assert_eq!(stack, vec![bits(8.0)]);
}

#[test]
fn whitespace_only_line_changes_nothing() {
    let mut stack = vec![bits(8.0)];
    run_line(" \t  ", &mut stack);
    assert_eq!(stack, vec![bits(8.0)]);
}

#[test]
fn tokens_split_on_runs_of_whitespace() {
    let mut stack: Vec<u64> = Vec::new();
    run_line("ldc:1\t ldc:2  add", &mut stack);
    assert_eq!(stack, vec![bits(3.0)]);
}

#[test]
fn execute_applies_opcodes_in_order() {
    let mut stack: Vec<u64> = Vec::new();
    execute(
        vec![
            Instruction::Ldc(bits(2.0)),
            Instruction::Ldc(bits(3.0)),
            Instruction::Mul,
            Instruction::Neg,
        ],
        &mut stack,
    );
    assert_eq!(stack, vec![bits(-6.0)]);
}
