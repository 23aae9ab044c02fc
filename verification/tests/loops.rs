use bau::interpreter::error::ExecutionErrorKind;
use bau::interpreter::value::Value;
use bau::source::Source;
use bau::error::BauError;
use bau::Bau;

fn run(code: &str) -> Result<Option<Value>, BauError> {
    Bau::new().run(&Source::from_text(code))
}

#[test]
fn fibonaci() {
    let result = run(r#"
        fn main() -> int {
            let int result = fibonacci(10);
            return result;
        }

        fn fibonacci(int n) -> int {
            let int a = 0;
            let int b = 1;
            let int i = 0;
            while i < n {
                let int next = a + b;
                a = b;
                b = next;
                i += 1;
            }

            return a + b;
        }
    "#);
    assert!(result.is_ok());
    assert_eq!(result.unwrap(), Some(Value::Int(144)));
}

#[test]
fn factorial() {
    let result = run(r#"
        fn main() -> int {
            let int result = factorial(5);
            return result;
        }

        fn factorial(int n) -> int {
            let int result = 1;
            let int i = 1;
            while i <= n {
                result *= i;
                i += 1;
            }

            return result;
        }
    "#);
    assert!(result.is_ok());
    assert_eq!(result.unwrap(), Some(Value::Int(120)));
}

#[test]
fn fizzbuzz_of_one_number() {
    let result = run(r#"
        fn main() -> string {
            return fizzbuzz(15);
        }

        fn fizzbuzz(int i) -> string {
            let string result = "";
            if i % 3 == 0 {
                result.append("Fizz");
            }
            if i % 5 == 0 {
                result.append("Buzz");
            }
            if i % 3 != 0 && i % 5 != 0 {
                result.append(i.to_string());
            }
            return result;
        }
    "#);
    assert_eq!(result, Ok(Some(Value::String("FizzBuzz".to_string()))));
}

#[test]
fn append_adds_to_the_variable_over_every_turn() {
    let result = run(r#"
        fn main() -> string {
            let string result = "";
            let int i = 1;
            while i <= 5 {
                if i % 3 != 0 && i % 5 != 0 {
                    result.append(i.to_string());
                } else {
                    result.append("-");
                }
                i += 1;
            }
            return result;
        }
    "#);
    assert_eq!(result, Ok(Some(Value::String("12-4-".to_string()))));
}

#[test]
fn compound_assignments() {
    let result = run(r#"
        fn main() -> int {
            let int x = 100;
            x -= 1;
            x %= 10;
            x *= 3;
            x += 4;
            return x;
        }
    "#);
    // 100 - 1 = 99, 99 % 10 = 9, 9 * 3 = 27, 27 + 4 = 31
    assert_eq!(result, Ok(Some(Value::Int(31))));
}

#[test]
fn a_while_loop_can_break_and_return() {
    let result = run(r#"
        fn main() -> int {
            let int i = 0;
            while true {
                i += 1;
                if i == 7 {
                    break;
                }
            }
            while true {
                i += 1;
                if i == 10 {
                    return i * 2;
                }
            }
            return 0;
        }
    "#);
    assert_eq!(result, Ok(Some(Value::Int(20))));
}

#[test]
fn continue_skips_the_rest_of_a_turn() {
    let result = run(r#"
        fn main() -> int {
            let int i = 0;
            let int odd = 0;
            while i < 10 {
                i += 1;
                if i % 2 == 0 {
                    continue;
                }
                odd += 1;
            }
            return odd;
        }
    "#);
    assert_eq!(result, Ok(Some(Value::Int(5))));
}

#[test]
fn a_return_in_a_nested_block_leaves_the_function() {
    let result = run(r#"
        fn pick(bool b) -> int {
            if b {
                { return 1; }
            } else {
                loop { return 2; }
            }
            return 3;
        }
        fn main() -> int { return pick(true) * 10 + pick(false); }
    "#);
    assert_eq!(result, Ok(Some(Value::Int(12))));
}

#[test]
fn a_while_loop_whose_condition_is_false_does_not_run() {
    let result = run("fn main() -> int { let int x = 3; while x > 5 { x = 0; } return x; }");
    assert_eq!(result, Ok(Some(Value::Int(3))));
}

#[test]
fn arguments_are_bound_to_parameters_in_order() {
    let result = run("fn sub(int a, int b) -> int { return a - b; } fn main() -> int { return sub(10, 3); }");
    assert_eq!(result, Ok(Some(Value::Int(7))));
}

#[test]
fn a_parameter_does_not_leak_into_the_caller() {
    let result = run("fn id(int a) -> int { return a; } fn main() -> int { let int a = 5; let int b = id(9); return a + b; }");
    assert_eq!(result, Ok(Some(Value::Int(14))));
}

#[test]
fn recursion_with_arguments() {
    let result = run(r#"
        fn fact(int n) -> int {
            if n <= 1 {
                return 1;
            }
            return n * fact(n - 1);
        }
        fn main() -> int { return fact(6); }
    "#);
    assert_eq!(result, Ok(Some(Value::Int(720))));
}

#[test]
fn to_string_gives_the_text_of_a_value() {
    let result = run("fn main() -> string { let bool b = 3 < 2; return b.to_string(); }");
    assert_eq!(result, Ok(Some(Value::String("false".to_string()))));
    let result = run("fn main() -> string { let int n = -42; return n.to_string(); }");
    assert_eq!(result, Ok(Some(Value::String("-42".to_string()))));
}

#[test]
fn comparisons_give_booleans() {
    let result = run("fn main() -> bool { return 1 < 2 && 2 != 3; }");
    assert_eq!(result, Ok(Some(Value::Bool(true))));
}

#[test]
fn extension_methods_take_arguments() {
    let result = run(r#"
        extend int {
            fn twice(int x) -> int { return x * 2; }
        }
        fn main() -> int {
            let int a = 1;
            return a.twice(21);
        }
    "#);
    assert_eq!(result, Ok(Some(Value::Int(42))));
}

#[test]
fn an_overflow_in_a_compound_assignment_is_an_error() {
    let result = run("fn main() -> int { let int x = 9223372036854775807; x += 1; return x; }");
    match result {
        Err(BauError::ExecutionError(e)) => {
            assert!(matches!(e.kind, ExecutionErrorKind::IntegerOverflow(_)))
        }
        other => panic!("unexpected {:?}", other),
    }
}
