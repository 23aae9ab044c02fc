use bau::interpreter::value::Value;
use bau::Bau;

#[test]
fn main_with_matched_types_should_not_error() {
    let src = r#"
        fn main() -> string {
            return "hello";
        }
    "#;

    let val = Bau::new().run(&src.into());
    assert_eq!(val, Ok(Some(Value::String("hello".to_string()))));
}

#[test]
fn main_with_missing_return_type_should_error() {
    let src = r#"
        fn main() -> int {
            return "hello";
        }
    "#;

    let val = Bau::new().run(&src.into());
    assert!(val.is_err());
}

#[test]
fn fn_order_should_be_allowed_to_be_below_call() {
    let src = r#"
        fn main() -> int {
            return bar();
        }
        
        fn bar() -> int {
            return 42;
        }
    "#;

    let val = Bau::new().run(&src.into());
    assert_eq!(val, Ok(Some(Value::Int(42))));
}

#[test]
fn function_with_matched_types_should_not_error() {
    let src = r#"
        fn foo() -> string {
            return "hello";
        }

        fn main() -> void {
            foo();
        }
    "#;

    let val = Bau::new().run(&src.into());
    assert!(val.is_ok());
}

#[test]
fn function_with_missing_return_type_should_error() {
    let src = r#"
        fn foo() {
            return "hello";
        }

        fn main() -> void {
            foo();
        }
    "#;

    let val = Bau::new().run(&src.into());
    assert!(val.is_err());
}

#[test]
fn function_with_mismatched_return_type_should_error() {
    let src = r#"
        fn foo() -> string {
            return 1;
        }

        fn main() -> void {
            foo();
        }
    "#;

    let val = Bau::new().run(&src.into());
    assert!(val.is_err());
}

#[test]
fn return_statement_should_end_with_semicolon() {
    let src = r#"
        fn foo() -> int {
            return 1
        }

        fn main() -> void {
            foo();
        }
    "#;

    let val = Bau::new().run(&src.into());
    assert!(val.is_err());
}

#[test]
fn should_return_value_from_extension_method() {
    let src = r#"
        extend string {
	        fn test() -> int {
		        return 42;
	        }
        }
        
        fn main() -> int {
            let string foo = "hello";
            return foo.test();
        }
    "#;

    let val = Bau::new().run(&src.into());
    assert!(val.is_ok());
}

#[test]
fn should_not_allow_duplicate_extension_methods_in_multiple_extensions() {
    let src = r#"
        extend string {
	        fn test() -> int {
		        return 42;
	        }
        }
        
        extend string {
	        fn test() -> int {
		        return 42;
	        }
        }

        fn main() -> int {
            let string foo = "hello";
            return foo.test();
        }
    "#;

    let val = Bau::new().run(&src.into());
    assert!(val.is_err());
}

#[test]
fn should_not_allow_duplicate_extension_methods_in_single_extension() {
    let src = r#"
        extend string {
	        fn test() -> int {
		        return 42;
	        }
	        
	        fn test() -> int {
		        return 42;
	        }
        }

        fn main() -> int {
            let string foo = "hello";
            return foo.test();
        }
    "#;

    let val = Bau::new().run(&src.into());
    assert!(val.is_err());
}

#[test]
fn item_extension_should_be_allowed_to_be_below_call() {
    let src = r#"
        fn main() -> int {
            let string foo = "hello";
            return foo.test();
        }
        
        extend string {
	        fn test() -> int {
		        return 42;
	        }
        }
    "#;

    let val = Bau::new().run(&src.into());
    assert_eq!(val, Ok(Some(Value::Int(42))));
}

#[test]
fn stmt_assignment_matched_types_should_not_error() {
    let src = r#"
        fn main() -> string {
            let string foo = "hello";
            foo = "world";
            return foo;
        }
    "#;

    let val = Bau::new().run(&src.into());
    assert_eq!(val, Ok(Some(Value::String("world".to_string()))));
}

#[test]
fn stmt_assignment_mismatched_types_should_error() {
    let src = r#"
        fn main() -> string {
            let string foo = "hello";
            foo = 1.0;
            return foo;
        }
    "#;

    let val = Bau::new().run(&src.into());
    assert!(val.is_err());
}

#[test]
fn stmt_assignment_should_end_with_semicolon() {
    let src = r#"
        fn main() -> void {
            let string foo = "hello";
            foo = 1.0
            return foo;
        }
    "#;

    let val = Bau::new().run(&src.into());
    assert!(val.is_err());
}

#[test]
fn let_should_have_type_annotation() {
    let src = r#"
        fn main() -> string {
            let foo = "hello";
            return foo;
        }
    "#;

    let val = Bau::new().run(&src.into());
    assert!(val.is_err());
}

#[test]
fn stmt_let_matched_types_should_not_error() {
    let src = r#"
        fn main() -> string {
            let string foo = "hello";
            return foo;
        }
    "#;

    let val = Bau::new().run(&src.into());
    assert_eq!(val, Ok(Some(Value::String("hello".to_string()))));
}

#[test]
fn stmt_let_mismatched_types_should_error() {
    let src = r#"
        fn main() -> string {
            let int foo = "hello";
            return foo;
        }
    "#;

    let val = Bau::new().run(&src.into());
    assert!(val.is_err());
}

#[test]
fn stmt_let_should_end_with_semicolon() {
    let src = r#"
        fn main() -> void {
            let int foo = 1
        }
    "#;

    let val = Bau::new().run(&src.into());
    assert!(val.is_err());
}
