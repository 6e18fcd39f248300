use rpn_calc::operator::{Operation, OperatorError};
use rpn_calc::session::{execute, help_text, process, Response};
use rpn_calc::stack::OperandStack;
use rpn_calc::token::{classify, try_get_command, try_get_operator, Commands, Operator, Token};

fn is_zero(x: f32) -> bool {
    x == 0.0
}

fn eval(o: Operation<f32>) -> f32 {
    match o {
        Operation::Negate(b) => -b,
        Operation::Add(a, b) => a + b,
        Operation::Subtract(a, b) => a - b,
        Operation::Multiply(a, b) => a * b,
        Operation::Divide(a, b) => a / b,
        Operation::Remainder(a, b) => a % b,
    }
}

fn stack_of(items: Vec<f32>) -> OperandStack<f32> {
    OperandStack::from_vec(items)
}

fn run_line(line: &str, stack: &mut OperandStack<f32>) -> Response<f32> {
    let t = line.trim();
    let token = classify(t, t.parse::<f32>().ok());
    process(token, stack, is_zero, eval)
}

#[test]
fn add_and_multiply_commute() {
    let mut s = stack_of(vec![3.0, 4.0]);
    let mut t = stack_of(vec![4.0, 3.0]);
    assert_eq!(Operator::Add.apply(&mut s, is_zero, eval), Ok(7.0));
    assert_eq!(Operator::Add.apply(&mut t, is_zero, eval), Ok(7.0));
    let mut s = stack_of(vec![3.0, 4.0]);
    let mut t = stack_of(vec![4.0, 3.0]);
    assert_eq!(Operator::Multiply.apply(&mut s, is_zero, eval), Ok(12.0));
    assert_eq!(Operator::Multiply.apply(&mut t, is_zero, eval), Ok(12.0));
    assert_eq!(s.contents(), vec![12.0]);
}

#[test]
fn subtract_pops_top_as_right_operand() {
    let mut s = stack_of(vec![3.0, 2.0]);
    assert_eq!(Operator::Subtract.apply(&mut s, is_zero, eval), Ok(1.0));
    assert_eq!(s.contents(), vec![1.0]);
    let mut t = stack_of(vec![2.0, 3.0]);
    assert_eq!(Operator::Subtract.apply(&mut t, is_zero, eval), Ok(-1.0));
    assert_eq!(t.contents(), vec![-1.0]);
}

#[test]
fn divide_uses_top_as_divisor() {
    let mut s = stack_of(vec![1.0, 6.0, 3.0]);
    assert_eq!(Operator::Divide.apply(&mut s, is_zero, eval), Ok(2.0));
    assert_eq!(s.contents(), vec![1.0, 2.0]);
}

#[test]
fn modulo_uses_top_as_divisor() {
    let mut s = stack_of(vec![7.0, 3.0]);
    assert_eq!(Operator::Modulo.apply(&mut s, is_zero, eval), Ok(1.0));
    assert_eq!(s.contents(), vec![1.0]);
    let mut t = stack_of(vec![-7.5, 2.0]);
    assert_eq!(Operator::Modulo.apply(&mut t, is_zero, eval), Ok(-1.5));
}

#[test]
fn divide_by_zero_restores_stack() {
    let mut s = stack_of(vec![5.0, 0.0]);
    assert_eq!(Operator::Divide.apply(&mut s, is_zero, eval), Err(OperatorError::DivideByZero));
    assert_eq!(s.contents(), vec![5.0, 0.0]);
    let mut t = stack_of(vec![5.0, -0.0]);
    assert_eq!(Operator::Divide.apply(&mut t, is_zero, eval), Err(OperatorError::DivideByZero));
    assert_eq!(t.len(), 2);
}

#[test]
fn modulo_by_zero_restores_stack() {
    let mut s = stack_of(vec![7.0, 0.0]);
    assert_eq!(Operator::Modulo.apply(&mut s, is_zero, eval), Err(OperatorError::ModuloByZero));
    assert_eq!(s.contents(), vec![7.0, 0.0]);
}

#[test]
fn zero_dividend_is_not_guarded() {
    let mut s = stack_of(vec![0.0, 4.0]);
    assert_eq!(Operator::Divide.apply(&mut s, is_zero, eval), Ok(0.0));
}

#[test]
fn not_enough_operands_leaves_stack() {
    let mut s = stack_of(vec![]);
    assert_eq!(Operator::Add.apply(&mut s, is_zero, eval), Err(OperatorError::NotEnoughOperands));
    assert!(s.is_empty());
    assert_eq!(Operator::Subtract.apply(&mut s, is_zero, eval), Err(OperatorError::NotEnoughOperands));
    assert!(s.is_empty());
    let mut one = stack_of(vec![4.0]);
    for op in [Operator::Add, Operator::Multiply, Operator::Divide, Operator::Modulo] {
        assert_eq!(op.apply(&mut one, is_zero, eval), Err(OperatorError::NotEnoughOperands));
        assert_eq!(one.contents(), vec![4.0]);
    }
}

#[test]
fn subtract_negates_single_operand() {
    let mut s = stack_of(vec![4.0]);
    assert_eq!(Operator::Subtract.apply(&mut s, is_zero, eval), Ok(-4.0));
    assert_eq!(s.contents(), vec![-4.0]);
    assert_eq!(s.peek(), Some(-4.0));
}

#[test]
fn number_round_trips_through_pop() {
    let mut s = stack_of(vec![1.0]);
    assert_eq!(run_line("2.5", &mut s), Response::Pushed(2.5));
    assert_eq!(run_line("p", &mut s), Response::Popped(Some(2.5)));
    assert_eq!(s.contents(), vec![1.0]);
    assert_eq!(run_line("-1e3", &mut s), Response::Pushed(-1000.0));
    assert_eq!(execute(Commands::Pop, &mut s), Response::Popped(Some(-1000.0)));
}

#[test]
fn pop_on_empty_stack_reports_empty() {
    let mut s = stack_of(vec![]);
    assert_eq!(execute(Commands::Pop, &mut s), Response::Popped(None));
    assert!(s.is_empty());
}

#[test]
fn commands_take_priority_over_numbers() {
    assert_eq!(classify("q", Some(1.0f32)), Token::Command(Commands::Quit));
    assert_eq!(classify("p", Some(1.0f32)), Token::Command(Commands::Pop));
    assert_eq!(classify("?", Some(1.0f32)), Token::Command(Commands::Help));
    assert_eq!(classify("-", Some(1.0f32)), Token::Operator(Operator::Subtract));
    assert_eq!(classify("3", Some(3.0f32)), Token::Number(3.0));
    assert_eq!(classify::<f32>("x", None), Token::Invalid);
    assert_eq!(classify::<f32>("qq", None), Token::Invalid);
}

#[test]
fn lookups_ignore_surrounding_whitespace() {
    assert_eq!(try_get_command("  q\n"), Some(Commands::Quit));
    assert_eq!(try_get_command("c"), Some(Commands::Clear));
    assert_eq!(try_get_command("\ts "), Some(Commands::Show));
    assert_eq!(try_get_command("Q"), None);
    assert_eq!(try_get_command("+"), None);
    assert_eq!(try_get_operator(" %\n"), Some(Operator::Modulo));
    assert_eq!(try_get_operator("/"), Some(Operator::Divide));
    assert_eq!(try_get_operator("*"), Some(Operator::Multiply));
    assert_eq!(try_get_operator("q"), None);
}

#[test]
fn show_and_clear_report_same_contents() {
    let mut s = stack_of(vec![1.0, 2.0, 3.0]);
    let shown = execute(Commands::Show, &mut s);
    assert_eq!(shown, Response::Shown(vec![1.0, 2.0, 3.0]));
    assert_eq!(s.len(), 3);
    let cleared = execute(Commands::Clear, &mut s);
    assert_eq!(cleared, Response::Cleared(vec![1.0, 2.0, 3.0]));
    assert!(s.is_empty());
    assert_eq!(s.clear(), Vec::<f32>::new());
}

#[test]
fn quit_and_help_leave_stack() {
    let mut s = stack_of(vec![8.0]);
    assert_eq!(execute(Commands::Quit, &mut s), Response::Quit);
    assert_eq!(execute(Commands::Help, &mut s), Response::Help);
    assert_eq!(s.contents(), vec![8.0]);
    assert_eq!(
        help_text(),
        "Valid operators: +, -, *, /, %\nValid commands: (q)uit, (p)op, (s)how, (c)lear, ?"
    );
}

#[test]
fn invalid_token_changes_nothing() {
    let mut s = stack_of(vec![2.0]);
    assert_eq!(run_line("abc", &mut s), Response::Invalid);
    assert_eq!(s.contents(), vec![2.0]);
}

#[test]
fn end_to_end_sequence() {
    let mut s = OperandStack::new();
    assert_eq!(run_line("3", &mut s), Response::Pushed(3.0));
    assert_eq!(run_line("4", &mut s), Response::Pushed(4.0));
    assert_eq!(run_line("+", &mut s), Response::Applied(Ok(7.0)));
    assert_eq!(run_line("2", &mut s), Response::Pushed(2.0));
    assert_eq!(run_line("*", &mut s), Response::Applied(Ok(14.0)));
    assert_eq!(s.contents(), vec![14.0]);
}

#[test]
fn operator_failure_is_reported_through_process() {
    let mut s = stack_of(vec![5.0, 0.0]);
    assert_eq!(run_line("/", &mut s), Response::Applied(Err(OperatorError::DivideByZero)));
    assert_eq!(run_line("%", &mut s), Response::Applied(Err(OperatorError::ModuloByZero)));
    assert_eq!(s.contents(), vec![5.0, 0.0]);
}
