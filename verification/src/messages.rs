//! What errors and values look like in messages.
use vstd::prelude::*;

use crate::builtins::{builtin_method_name, builtin_name};
use crate::error::{BauError, BauErrorView};
use crate::interpreter::error::{ExecutionError, ExecutionErrorKind, ExecutionErrorKindView};
use crate::interpreter::value::{opt_view, Value, ValueView};
use crate::parser::error::{ParserError, ParserErrorKind};
use crate::parser::{ParsedType, ParsedTypeView};
use crate::text::push_str;
use crate::tokenizer::token::{kind_name, TokenKind};
use crate::typechecker::error::{
    Construct, TypecheckerError, TypecheckerErrorKind, TypecheckerErrorKindView,
};

verus! {

/// The decimal digits of a natural number.
pub open spec fn digits(n: nat) -> Seq<char>
    decreases n,
{
    if n < 10 {
        seq![digit_char(n)]
    } else {
        digits(n / 10).push(digit_char(n % 10))
    }
}

pub open spec fn digit_char(d: nat) -> char {
    if d == 0 {
        '0'
    } else if d == 1 {
        '1'
    } else if d == 2 {
        '2'
    } else if d == 3 {
        '3'
    } else if d == 4 {
        '4'
    } else if d == 5 {
        '5'
    } else if d == 6 {
        '6'
    } else if d == 7 {
        '7'
    } else if d == 8 {
        '8'
    } else {
        '9'
    }
}

/// An integer in decimal, with a minus sign when it is negative.
pub open spec fn decimal(n: int) -> Seq<char> {
    if n < 0 {
        "-"@ + digits((-n) as nat)
    } else {
        digits(n as nat)
    }
}

fn digit_of(d: u64) -> (c: char)
    requires
        d < 10,
    ensures
        c == digit_char(d as nat),
{
    if d == 0 {
        '0'
    } else if d == 1 {
        '1'
    } else if d == 2 {
        '2'
    } else if d == 3 {
        '3'
    } else if d == 4 {
        '4'
    } else if d == 5 {
        '5'
    } else if d == 6 {
        '6'
    } else if d == 7 {
        '7'
    } else if d == 8 {
        '8'
    } else {
        '9'
    }
}

/// The decimal digits of `n`.
pub fn digits_text(n: u64) -> (s: String)
    ensures
        s@ == digits(n as nat),
{
    let mut rev: Vec<char> = Vec::new();
    let mut q = n;
    while q >= 10
        invariant
            digits(n as nat) == digits(q as nat) + rev@.reverse(),
        decreases q,
    {
        let d = q % 10;
        let ghost before = rev@;
        rev.push(digit_of(d));
        proof {
            assert(rev@.reverse() =~= seq![digit_char(d as nat)] + before.reverse());
            assert(digits(q as nat) == digits((q / 10) as nat).push(digit_char(d as nat)));
            assert(digits((q / 10) as nat).push(digit_char(d as nat)) + before.reverse() =~= digits(
                (q / 10) as nat,
            ) + rev@.reverse());
        }
        q = q / 10;
    }
    let mut s = String::new();
    crate::text::push_char(&mut s, digit_of(q));
    let mut i = rev.len();
    proof {
        assert(s@ =~= digits(q as nat));
    }
    while i > 0
        invariant
            i <= rev@.len(),
            digits(n as nat) == s@ + rev@.take(i as int).reverse(),
        decreases i,
    {
        let ghost before = s@;
        crate::text::push_char(&mut s, rev[i - 1]);
        proof {
            assert(rev@.take(i as int).reverse() =~= seq![rev@[i - 1]] + rev@.take(i - 1).reverse());
            assert(s@ + rev@.take(i - 1).reverse() =~= before + rev@.take(i as int).reverse());
        }
        i = i - 1;
    }
    proof {
        assert(rev@.take(0).reverse() =~= Seq::<char>::empty());
        assert(s@ + Seq::<char>::empty() =~= s@);
    }
    s
}

/// An `i64` in decimal.
pub fn decimal_text(n: i64) -> (s: String)
    ensures
        s@ == decimal(n as int),
{
    if n < 0 {
        let m = (0i128 - n as i128) as u64;
        let mut s = "-".to_string();
        push_str(&mut s, digits_text(m).as_str());
        s
    } else {
        digits_text(n as u64)
    }
}

/// How a value looks in messages and output; no value is `void`. A float looks as it was
/// written.
pub open spec fn value_text(v: Option<ValueView>) -> Seq<char> {
    match v {
        None => "void"@,
        Some(ValueView::Int(i)) => decimal(i as int),
        Some(ValueView::Float(t)) => t,
        Some(ValueView::String(s)) => s,
        Some(ValueView::Bool(b)) => if b {
            "true"@
        } else {
            "false"@
        },
    }
}

/// How a value looks in messages and output; no value is `void`.
pub fn value_to_text(v: &Option<Value>) -> (s: String)
    ensures
        s@ == value_text(opt_view(*v)),
{
    match v {
        None => "void".to_string(),
        Some(Value::Int(i)) => decimal_text(*i),
        Some(Value::Float(t)) => t.clone(),
        Some(Value::String(s)) => s.clone(),
        Some(Value::Bool(b)) => if *b {
            "true".to_string()
        } else {
            "false".to_string()
        },
    }
}

/// How a parsed type is written.
pub open spec fn parsed_type_text(t: ParsedTypeView) -> Seq<char> {
    match t {
        ParsedTypeView::Void => "void"@,
        ParsedTypeView::Int => "int"@,
        ParsedTypeView::Float => "float"@,
        ParsedTypeView::String => "string"@,
        ParsedTypeView::Bool => "bool"@,
        ParsedTypeView::Name(n) => n,
    }
}

impl ParsedType {
    /// How the type is written.
    pub fn to_text(&self) -> (s: String)
        ensures
            s@ == parsed_type_text(self@),
    {
        match self {
            ParsedType::Void => "void".to_string(),
            ParsedType::Int => "int".to_string(),
            ParsedType::Float => "float".to_string(),
            ParsedType::String => "string".to_string(),
            ParsedType::Bool => "bool".to_string(),
            ParsedType::Name(n) => n.clone(),
        }
    }
}

/// `before`, the quoted `name`, and `after`.
pub open spec fn quoted(before: Seq<char>, name: Seq<char>, after: Seq<char>) -> Seq<char> {
    before + "`"@ + name + "`"@ + after
}

fn quote(before: &str, name: &str, after: &str) -> (s: String)
    ensures
        s@ == quoted(before@, name@, after@),
{
    let mut s = before.to_string();
    push_str(&mut s, "`");
    push_str(&mut s, name);
    push_str(&mut s, "`");
    push_str(&mut s, after);
    s
}

/// `before`, the quoted `a`, `middle`, the quoted `b`, and `after`.
pub open spec fn quoted2(before: Seq<char>, a: Seq<char>, middle: Seq<char>, b: Seq<char>, after: Seq<char>) -> Seq<char> {
    quoted(before, a, middle) + "`"@ + b + "`"@ + after
}

fn quote2(before: &str, a: &str, middle: &str, b: &str, after: &str) -> (s: String)
    ensures
        s@ == quoted2(before@, a@, middle@, b@, after@),
{
    let mut s = quote(before, a, middle);
    push_str(&mut s, "`");
    push_str(&mut s, b);
    push_str(&mut s, "`");
    push_str(&mut s, after);
    s
}

/// The message of a parser error.
pub open spec fn parser_message(kind: ParserErrorKind) -> Seq<char> {
    match kind {
        ParserErrorKind::UnknownToken(t) => quoted("Unknown token: "@, kind_name(t), ""@),
        ParserErrorKind::UnexpectedToken(t, Some(e)) => quoted2(
            "Expected token "@,
            kind_name(e),
            ", but found "@,
            kind_name(t),
            " instead"@,
        ),
        ParserErrorKind::UnexpectedToken(t, None) => quoted(
            "Expected an item (`fn` or `extend`), but found "@,
            kind_name(t),
            " instead"@,
        ),
        ParserErrorKind::UnexpectedEof(Some(e)) => quoted(
            "Expected token "@,
            kind_name(e),
            ", but found end of file instead"@,
        ),
        ParserErrorKind::UnexpectedEof(None) => "Expected a token, but found end of file instead"@,
        ParserErrorKind::InvalidStartOfExpression(t) => quoted(
            "Invalid start of expression "@,
            kind_name(t),
            ""@,
        ),
        ParserErrorKind::MemberAccessNotImplemented => "Member access is not implemented"@,
        ParserErrorKind::InvalidLiteral(t) => quoted("Invalid "@, kind_name(t), ""@),
    }
}

impl ParserError {
    /// The message of the error.
    pub fn message(&self) -> (s: String)
        ensures
            s@ == parser_message(self.kind),
    {
        match self.kind {
            ParserErrorKind::UnknownToken(t) => quote("Unknown token: ", t.name(), ""),
            ParserErrorKind::UnexpectedToken(t, Some(e)) => quote2(
                "Expected token ",
                e.name(),
                ", but found ",
                t.name(),
                " instead",
            ),
            ParserErrorKind::UnexpectedToken(t, None) => quote(
                "Expected an item (`fn` or `extend`), but found ",
                t.name(),
                " instead",
            ),
            ParserErrorKind::UnexpectedEof(Some(e)) => quote(
                "Expected token ",
                e.name(),
                ", but found end of file instead",
            ),
            ParserErrorKind::UnexpectedEof(None) => "Expected a token, but found end of file instead".to_string(),
            ParserErrorKind::InvalidStartOfExpression(t) => quote(
                "Invalid start of expression ",
                t.name(),
                "",
            ),
            ParserErrorKind::MemberAccessNotImplemented => "Member access is not implemented".to_string(),
            ParserErrorKind::InvalidLiteral(t) => quote("Invalid ", t.name(), ""),
        }
    }
}

/// What a construct the typechecker does not handle is called in messages.
pub open spec fn construct_text(c: Construct) -> Seq<char> {
    match c {
        Construct::PrefixOperator => "prefix operators"@,
        Construct::PostfixOperator => "postfix operators"@,
    }
}

fn construct_to_text(c: Construct) -> (s: &'static str)
    ensures
        s@ == construct_text(c),
{
    match c {
        Construct::PrefixOperator => "prefix operators",
        Construct::PostfixOperator => "postfix operators",
    }
}

/// The message of a typechecker error.
pub open spec fn typechecker_message(kind: TypecheckerErrorKindView) -> Seq<char> {
    match kind {
        TypecheckerErrorKindView::TypeMismatch { expected, found } => quoted2(
            "Expected type "@,
            expected,
            ", but found "@,
            found,
            " instead"@,
        ),
        TypecheckerErrorKindView::ReturnTypeMismatch { expected, found } => quoted2(
            "Expected type "@,
            expected,
            ", but found "@,
            found,
            " instead"@,
        ),
        TypecheckerErrorKindView::MissingReturnValue { .. } => "Expected a return value"@,
        TypecheckerErrorKindView::UnknownVariable(n) => quoted("Variable "@, n, " is not defined"@),
        TypecheckerErrorKindView::UnknownType(n) => quoted("Unknown type "@, n, ""@),
        TypecheckerErrorKindView::UnknownFunction(n) => quoted("Function "@, n, " is not defined"@),
        TypecheckerErrorKindView::WrongArgumentCount { name, expected, found } => quoted(
            "Invalid number of arguments for function "@,
            name,
            ": expected "@,
        ) + digits(expected as nat) + ", found "@ + digits(found as nat),
        TypecheckerErrorKindView::UnknownMethod { name, on_type } => quoted2(
            "Method "@,
            name,
            " is not defined for type "@,
            on_type,
            ""@,
        ),
        TypecheckerErrorKindView::DuplicateMethod { name, on_type } => quoted2(
            "Method "@,
            name,
            " already exists on type "@,
            on_type,
            ""@,
        ),
        TypecheckerErrorKindView::NotImplemented(c) => "Typechecking "@ + construct_text(c)
            + " is not implemented"@,
        TypecheckerErrorKindView::BodyNotBlock => "Function should have a block as body statement"@,
    }
}

impl TypecheckerError {
    /// The message of the error.
    pub fn message(&self) -> (s: String)
        ensures
            s@ == typechecker_message(self.kind@),
    {
        match &self.kind {
            TypecheckerErrorKind::TypeMismatch { expected, found } => quote2(
                "Expected type ",
                expected.as_str(),
                ", but found ",
                found.as_str(),
                " instead",
            ),
            TypecheckerErrorKind::ReturnTypeMismatch { expected, found } => quote2(
                "Expected type ",
                expected.as_str(),
                ", but found ",
                found.as_str(),
                " instead",
            ),
            TypecheckerErrorKind::MissingReturnValue { .. } => "Expected a return value".to_string(),
            TypecheckerErrorKind::UnknownVariable(n) => quote("Variable ", n.as_str(), " is not defined"),
            TypecheckerErrorKind::UnknownType(n) => quote("Unknown type ", n.as_str(), ""),
            TypecheckerErrorKind::UnknownFunction(n) => quote("Function ", n.as_str(), " is not defined"),
            TypecheckerErrorKind::WrongArgumentCount { name, expected, found } => {
                let mut s = quote("Invalid number of arguments for function ", name.as_str(), ": expected ");
                push_str(&mut s, digits_text(*expected as u64).as_str());
                push_str(&mut s, ", found ");
                push_str(&mut s, digits_text(*found as u64).as_str());
                s
            },
            TypecheckerErrorKind::UnknownMethod { name, on_type } => quote2(
                "Method ",
                name.as_str(),
                " is not defined for type ",
                on_type.as_str(),
                "",
            ),
            TypecheckerErrorKind::DuplicateMethod { name, on_type } => quote2(
                "Method ",
                name.as_str(),
                " already exists on type ",
                on_type.as_str(),
                "",
            ),
            TypecheckerErrorKind::NotImplemented(c) => {
                let mut s = "Typechecking ".to_string();
                push_str(&mut s, construct_to_text(*c));
                push_str(&mut s, " is not implemented");
                s
            },
            TypecheckerErrorKind::BodyNotBlock => "Function should have a block as body statement".to_string(),
        }
    }
}

/// The message for an operator applied to values it is not defined on.
pub open spec fn operands_text(op: TokenKind) -> Seq<char> {
    match op {
        TokenKind::Plus => "Addition is only available between ints, floats and strings"@,
        TokenKind::Minus => "Subtraction is only available between ints and floats"@,
        TokenKind::Asterisk => "Multiplication is only available between ints and floats"@,
        TokenKind::Slash => "Division is only available between ints and floats"@,
        TokenKind::Percent => "Modulo is only available between ints"@,
        TokenKind::LessThan => "Less than is only available between ints and floats"@,
        TokenKind::LessThanEquals => "Less than or equals is only available between ints and floats"@,
        TokenKind::GreaterThan => "Greater than is only available between ints and floats"@,
        TokenKind::GreaterThanEquals => "Greater than or equals is only available between ints and floats"@,
        TokenKind::AmpersandAmpersand => "Logical and is only available between bools"@,
        TokenKind::PipePipe => "Logical or is only available between bools"@,
        _ => "Operator cannot be applied to these values"@,
    }
}

fn operands_to_text(op: TokenKind) -> (s: &'static str)
    ensures
        s@ == operands_text(op),
{
    match op {
        TokenKind::Plus => "Addition is only available between ints, floats and strings",
        TokenKind::Minus => "Subtraction is only available between ints and floats",
        TokenKind::Asterisk => "Multiplication is only available between ints and floats",
        TokenKind::Slash => "Division is only available between ints and floats",
        TokenKind::Percent => "Modulo is only available between ints",
        TokenKind::LessThan => "Less than is only available between ints and floats",
        TokenKind::LessThanEquals => "Less than or equals is only available between ints and floats",
        TokenKind::GreaterThan => "Greater than is only available between ints and floats",
        TokenKind::GreaterThanEquals => "Greater than or equals is only available between ints and floats",
        TokenKind::AmpersandAmpersand => "Logical and is only available between bools",
        TokenKind::PipePipe => "Logical or is only available between bools",
        _ => "Operator cannot be applied to these values",
    }
}

/// The message of an execution error.
pub open spec fn execution_message(kind: ExecutionErrorKindView) -> Seq<char> {
    match kind {
        ExecutionErrorKindView::MainFunctionNotFound => "No main function found"@,
        ExecutionErrorKindView::UnknownVariable(n) => quoted("No variable found with name: "@, n, ""@),
        ExecutionErrorKindView::UnknownFunction(n) => quoted("No function found with name: "@, n, ""@),
        ExecutionErrorKindView::VoidInitializer => "Variable can't be initialized to `void`"@,
        ExecutionErrorKindView::VoidAssignment => "Variable can't be assigned to `void`"@,
        ExecutionErrorKindView::NonBooleanCondition(v) => quoted(
            "Expected boolean condition, found: "@,
            value_text(v),
            ""@,
        ),
        ExecutionErrorKindView::InvalidNegation => "Only ints and floats can be negated"@,
        ExecutionErrorKindView::InvalidNot => "Only bools can be negated"@,
        ExecutionErrorKindView::InvalidPrefixOperator(op) => quoted("Invalid prefix operator: "@, kind_name(op), ""@),
        ExecutionErrorKindView::VoidOperand => "Infix operator can't be applied to `void`"@,
        ExecutionErrorKindView::InvalidOperands(op) => operands_text(op),
        ExecutionErrorKindView::InvalidInfixOperator(op) => quoted("Invalid infix operator: "@, kind_name(op), ""@),
        ExecutionErrorKindView::PostfixNotImplemented => "PostfixOp expression execution not implemented"@,
        ExecutionErrorKindView::IntegerOverflow(op) => quoted("Integer overflow in "@, kind_name(op), ""@),
        ExecutionErrorKindView::DivisionByZero(op) => quoted("Division by zero in "@, kind_name(op), ""@),
        ExecutionErrorKindView::FloatOperation(op) => quoted(
            "Float operations are not supported: "@,
            kind_name(op),
            ""@,
        ),
        ExecutionErrorKindView::MissingArgument(f) => quoted("Builtin "@, builtin_name(f), " expects an argument"@),
        ExecutionErrorKindView::VoidArgument => "Argument can't be `void`"@,
        ExecutionErrorKindView::InvalidMethodCall(m) => quoted(
            "Method "@,
            builtin_method_name(m),
            " can't be applied here"@,
        ),
        ExecutionErrorKindView::BodyNotBlock => "Function should have a block as body statement"@,
        ExecutionErrorKindView::OutOfFuel => "Program ran out of fuel"@,
    }
}

impl ExecutionError {
    /// The message of the error.
    pub fn message(&self) -> (s: String)
        ensures
            s@ == execution_message(self@),
    {
        match &self.kind {
            ExecutionErrorKind::MainFunctionNotFound => "No main function found".to_string(),
            ExecutionErrorKind::UnknownVariable(n) => quote("No variable found with name: ", n.as_str(), ""),
            ExecutionErrorKind::UnknownFunction(n) => quote("No function found with name: ", n.as_str(), ""),
            ExecutionErrorKind::VoidInitializer => "Variable can't be initialized to `void`".to_string(),
            ExecutionErrorKind::VoidAssignment => "Variable can't be assigned to `void`".to_string(),
            ExecutionErrorKind::NonBooleanCondition(v) => quote(
                "Expected boolean condition, found: ",
                value_to_text(v).as_str(),
                "",
            ),
            ExecutionErrorKind::InvalidNegation => "Only ints and floats can be negated".to_string(),
            ExecutionErrorKind::InvalidNot => "Only bools can be negated".to_string(),
            ExecutionErrorKind::InvalidPrefixOperator(op) => quote("Invalid prefix operator: ", op.name(), ""),
            ExecutionErrorKind::VoidOperand => "Infix operator can't be applied to `void`".to_string(),
            ExecutionErrorKind::InvalidOperands(op) => operands_to_text(*op).to_string(),
            ExecutionErrorKind::InvalidInfixOperator(op) => quote("Invalid infix operator: ", op.name(), ""),
            ExecutionErrorKind::PostfixNotImplemented => "PostfixOp expression execution not implemented".to_string(),
            ExecutionErrorKind::IntegerOverflow(op) => quote("Integer overflow in ", op.name(), ""),
            ExecutionErrorKind::DivisionByZero(op) => quote("Division by zero in ", op.name(), ""),
            ExecutionErrorKind::FloatOperation(op) => quote("Float operations are not supported: ", op.name(), ""),
            ExecutionErrorKind::MissingArgument(f) => quote("Builtin ", f.name(), " expects an argument"),
            ExecutionErrorKind::VoidArgument => "Argument can't be `void`".to_string(),
            ExecutionErrorKind::InvalidMethodCall(m) => quote("Method ", m.name(), " can't be applied here"),
            ExecutionErrorKind::BodyNotBlock => "Function should have a block as body statement".to_string(),
            ExecutionErrorKind::OutOfFuel => "Program ran out of fuel".to_string(),
        }
    }
}

/// The message of an error.
pub open spec fn bau_message(e: BauErrorView) -> Seq<char> {
    match e {
        BauErrorView::ParserError(p) => parser_message(p.kind),
        BauErrorView::TypecheckerError(t) => typechecker_message(t.kind),
        BauErrorView::ExecutionError(x) => execution_message(x),
    }
}

impl BauError {
    /// The message of the error.
    pub fn message(&self) -> (s: String)
        ensures
            s@ == bau_message(self@),
    {
        match self {
            BauError::ParserError(e) => e.message(),
            BauError::TypecheckerError(e) => e.message(),
            BauError::ExecutionError(e) => e.message(),
        }
    }
}

} // verus!
