use bau::interpreter::error::ExecutionErrorKind;
use bau::interpreter::scope::ControlFlow;
use bau::interpreter::value::Value;
use bau::interpreter::Interpreter;
use bau::parser::ast::{BlockKind, Literal};
use bau::parser::Parser;
use bau::source::{Source, Span};
use bau::tokenizer::token::TokenKind;
use bau::typechecker::checked::{CheckedExpr, CheckedExprKind, CheckedStmt, BOOL_TYPE_ID, INT_TYPE_ID};
use bau::typechecker::Typechecker;

fn num(i: i64) -> CheckedExpr {
    CheckedExpr { kind: CheckedExprKind::Literal(Literal::Int(i)), type_id: INT_TYPE_ID, span: Span::new(0, 0) }
}

fn var(name: &str) -> CheckedExpr {
    CheckedExpr { kind: CheckedExprKind::Identifier(name.to_string()), type_id: INT_TYPE_ID, span: Span::new(0, 0) }
}

fn infix(op: TokenKind, lhs: CheckedExpr, rhs: CheckedExpr, type_id: usize) -> CheckedExpr {
    CheckedExpr { kind: CheckedExprKind::InfixOp { op, lhs: Box::new(lhs), rhs: Box::new(rhs) }, type_id, span: Span::new(0, 0) }
}

fn block(kind: BlockKind, statements: Vec<CheckedStmt>) -> CheckedStmt {
    CheckedStmt::Block { block_kind: kind, statements }
}

#[test]
fn a_variable_reads_back_what_was_written() {
    let mut interpreter = Interpreter::new();
    interpreter.push_scope(BlockKind::Function);
    interpreter.set_variable_value("x", Value::Int(1));
    interpreter.push_scope(BlockKind::Regular);
    interpreter.set_variable_value("x", Value::Int(2));
    interpreter.set_variable_value("y", Value::Int(3));
    assert_eq!(interpreter.get_variable_value("x"), Ok(Value::Int(2)));
    assert_eq!(interpreter.get_variable_value("y"), Ok(Value::Int(3)));
    interpreter.pop_scope();
    assert_eq!(interpreter.get_variable_value("x"), Ok(Value::Int(2)));
    assert_eq!(
        interpreter.get_variable_value("y").unwrap_err().kind,
        ExecutionErrorKind::UnknownVariable("y".to_string())
    );
}

#[test]
fn a_loop_counts_until_it_breaks() {
    // let x = 0; loop { x = x + 1; if x == 5 { break; } } return x;
    let body = block(
        BlockKind::Function,
        vec![
            CheckedStmt::Let { name: "x".to_string(), var_type: INT_TYPE_ID, expr: Box::new(num(0)) },
            CheckedStmt::Loop {
                body: Box::new(block(
                    BlockKind::Loop,
                    vec![
                        CheckedStmt::Assignment { name: "x".to_string(), expr: Box::new(infix(TokenKind::Plus, var("x"), num(1), INT_TYPE_ID)) },
                        CheckedStmt::If {
                            condition: Box::new(infix(TokenKind::EqualsEquals, var("x"), num(5), BOOL_TYPE_ID)),
                            then_branch: Box::new(block(BlockKind::Regular, vec![CheckedStmt::Break])),
                            else_branch: None,
                        },
                    ],
                )),
            },
            CheckedStmt::Return { expr: Some(Box::new(var("x"))) },
        ],
    );
    let mut interpreter = Interpreter::new();
    interpreter.push_scope(BlockKind::Regular);
    let cf = interpreter.execute_block_statement(&body).unwrap();
    assert_eq!(cf, Some(ControlFlow::Return(Some(Value::Int(5)))));
    assert_eq!(interpreter.fuel(), u64::MAX - 5);
}

#[test]
fn a_loop_without_end_runs_out_of_fuel() {
    let forever = CheckedStmt::Loop { body: Box::new(block(BlockKind::Loop, vec![CheckedStmt::Continue])) };
    let mut interpreter = Interpreter::with_fuel(100);
    interpreter.push_scope(BlockKind::Function);
    assert_eq!(interpreter.execute_statement(&forever).unwrap_err().kind, ExecutionErrorKind::OutOfFuel);
    assert_eq!(interpreter.fuel(), 0);
}

#[test]
fn an_if_needs_a_boolean() {
    let stmt = CheckedStmt::If {
        condition: Box::new(num(1)),
        then_branch: Box::new(block(BlockKind::Regular, vec![])),
        else_branch: None,
    };
    let mut interpreter = Interpreter::new();
    interpreter.push_scope(BlockKind::Function);
    assert_eq!(
        interpreter.execute_statement(&stmt).unwrap_err().kind,
        ExecutionErrorKind::NonBooleanCondition(Some(Value::Int(1)))
    );
}

#[test]
fn calls_take_fuel() {
    let source = Source::from_text("fn one() -> int { return 1; } fn main() -> int { return one(); }");
    let items = Parser::new(&source).parse_top_level().unwrap();
    let mut typechecker = Typechecker::new();
    typechecker.check_top_level(&items).unwrap();
    let mut interpreter = Interpreter::with_fuel(0);
    interpreter.register_functions(&typechecker);
    assert_eq!(interpreter.execute_main().unwrap_err().kind, ExecutionErrorKind::OutOfFuel);
    let mut interpreter = Interpreter::with_fuel(1);
    interpreter.register_functions(&typechecker);
    assert_eq!(interpreter.execute_main(), Ok(Some(Value::Int(1))));
    assert_eq!(interpreter.fuel(), 0);
}

#[test]
fn a_later_function_of_the_same_name_replaces_an_earlier_one() {
    let source = Source::from_text("fn main() -> int { return 1; } fn main() -> int { return 2; }");
    let items = Parser::new(&source).parse_top_level().unwrap();
    let mut typechecker = Typechecker::new();
    typechecker.check_top_level(&items).unwrap();
    assert_eq!(typechecker.functions().len(), 2);
    let mut interpreter = Interpreter::new();
    interpreter.register_functions(&typechecker);
    assert_eq!(interpreter.execute_main(), Ok(Some(Value::Int(2))));
}

#[test]
fn control_flow_is_recorded_on_the_right_scope() {
    let mut interpreter = Interpreter::new();
    interpreter.push_scope(BlockKind::Loop);
    interpreter.push_scope(BlockKind::Regular);
    interpreter.set_control_flow(ControlFlow::Break);
    assert!(!interpreter.control_flow_should_break());
    assert_eq!(interpreter.current_loop_scope().unwrap().control_flow, Some(ControlFlow::Break));
    interpreter.set_control_flow(ControlFlow::Return(None));
    assert!(interpreter.control_flow_should_break());
    assert_eq!(interpreter.current_scope().control_flow, Some(ControlFlow::Return(None)));
}
