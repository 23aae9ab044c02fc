//! The checked syntax tree: what the typechecker hands to the interpreter.
use vstd::prelude::*;

use crate::builtins::{BuiltinFunction, BuiltinMethod};
use crate::parser::ast::{BlockKind, Literal, LiteralView};
use crate::source::Span;
use crate::tokenizer::token::TokenKind;

verus! {

/// The index of a type in the typechecker's table of types.
pub type TypeId = usize;

pub type FunctionId = usize;

pub const VOID_TYPE_ID: TypeId = 0;

pub const INT_TYPE_ID: TypeId = 1;

pub const FLOAT_TYPE_ID: TypeId = 2;

pub const STRING_TYPE_ID: TypeId = 3;

pub const BOOL_TYPE_ID: TypeId = 4;

#[derive(Debug)]
pub enum CheckedStmt {
    Let { name: String, var_type: TypeId, expr: Box<CheckedExpr> },
    Assignment { name: String, expr: Box<CheckedExpr> },
    If {
        condition: Box<CheckedExpr>,
        then_branch: Box<CheckedStmt>,
        else_branch: Option<Box<CheckedStmt>>,
    },
    Loop { body: Box<CheckedStmt> },
    While { condition: Box<CheckedExpr>, body: Box<CheckedStmt> },
    CompoundAssignment { name: String, op: TokenKind, expr: Box<CheckedExpr> },
    Block { block_kind: BlockKind, statements: Vec<CheckedStmt> },
    Return { expr: Option<Box<CheckedExpr>> },
    Continue,
    Break,
    Expression { expr: Box<CheckedExpr> },
}

/// An expression with its type and span.
#[derive(Debug)]
pub struct CheckedExpr {
    pub kind: CheckedExprKind,
    pub type_id: TypeId,
    pub span: Span,
}

#[derive(Debug)]
pub enum CheckedExprKind {
    Literal(Literal),
    Identifier(String),
    BuiltinFnCall { function: BuiltinFunction, args: Vec<CheckedExpr> },
    FnCall(CheckedFunctionCall),
    PrefixOp { op: TokenKind, expr: Box<CheckedExpr> },
    InfixOp { op: TokenKind, lhs: Box<CheckedExpr>, rhs: Box<CheckedExpr> },
    PostfixOp { op: TokenKind, expr: Box<CheckedExpr> },
    /// A call of a method of an extension: the method itself, as it was checked, and the
    /// arguments.
    MethodCall { method: Box<CheckedFunctionItem>, args: Vec<CheckedExpr> },
    /// A call of a builtin method on a receiver.
    BuiltinMethodCall { method: BuiltinMethod, receiver: Box<CheckedExpr>, args: Vec<CheckedExpr> },
}

#[derive(Debug)]
pub struct CheckedFunctionCall {
    pub name: String,
    pub args: Vec<CheckedExpr>,
}

#[derive(Debug)]
pub struct CheckedFunctionItem {
    pub name: String,
    pub return_type: TypeId,
    pub parameters: Vec<(String, TypeId)>,
    pub body: CheckedStmt,
}

pub enum CheckedStmtView {
    Let { name: Seq<char>, var_type: TypeId, expr: CheckedExprView },
    Assignment { name: Seq<char>, expr: CheckedExprView },
    If {
        condition: CheckedExprView,
        then_branch: Box<CheckedStmtView>,
        else_branch: Option<Box<CheckedStmtView>>,
    },
    Loop { body: Box<CheckedStmtView> },
    While { condition: CheckedExprView, body: Box<CheckedStmtView> },
    CompoundAssignment { name: Seq<char>, op: TokenKind, expr: CheckedExprView },
    Block { block_kind: BlockKind, statements: Seq<CheckedStmtView> },
    Return { expr: Option<CheckedExprView> },
    Continue,
    Break,
    Expression { expr: CheckedExprView },
}

pub struct CheckedExprView {
    pub kind: CheckedExprKindView,
    pub type_id: TypeId,
    pub span: Span,
}

pub enum CheckedExprKindView {
    Literal(LiteralView),
    Identifier(Seq<char>),
    BuiltinFnCall { function: BuiltinFunction, args: Seq<CheckedExprView> },
    FnCall { name: Seq<char>, args: Seq<CheckedExprView> },
    PrefixOp { op: TokenKind, expr: Box<CheckedExprView> },
    InfixOp { op: TokenKind, lhs: Box<CheckedExprView>, rhs: Box<CheckedExprView> },
    PostfixOp { op: TokenKind, expr: Box<CheckedExprView> },
    MethodCall { method: Box<CheckedFunctionView>, args: Seq<CheckedExprView> },
    BuiltinMethodCall { method: BuiltinMethod, receiver: Box<CheckedExprView>, args: Seq<CheckedExprView> },
}

pub struct CheckedFunctionView {
    pub name: Seq<char>,
    pub return_type: TypeId,
    pub parameters: Seq<(Seq<char>, TypeId)>,
    pub body: CheckedStmtView,
}

pub open spec fn params_view(s: Seq<(String, TypeId)>) -> Seq<(Seq<char>, TypeId)> {
    s.map_values(|p: (String, TypeId)| (p.0@, p.1))
}

pub open spec fn cexpr_view(e: CheckedExpr) -> CheckedExprView
    decreases e,
{
    let kind = match e.kind {
        CheckedExprKind::Literal(l) => CheckedExprKindView::Literal(l@),
        CheckedExprKind::Identifier(n) => CheckedExprKindView::Identifier(n@),
        CheckedExprKind::BuiltinFnCall { function, args } => CheckedExprKindView::BuiltinFnCall {
            function,
            args: cexprs_view(args@),
        },
        CheckedExprKind::FnCall(c) => CheckedExprKindView::FnCall {
            name: c.name@,
            args: cexprs_view(c.args@),
        },
        CheckedExprKind::PrefixOp { op, expr } => CheckedExprKindView::PrefixOp {
            op,
            expr: Box::new(cexpr_view(*expr)),
        },
        CheckedExprKind::InfixOp { op, lhs, rhs } => CheckedExprKindView::InfixOp {
            op,
            lhs: Box::new(cexpr_view(*lhs)),
            rhs: Box::new(cexpr_view(*rhs)),
        },
        CheckedExprKind::PostfixOp { op, expr } => CheckedExprKindView::PostfixOp {
            op,
            expr: Box::new(cexpr_view(*expr)),
        },
        CheckedExprKind::MethodCall { method, args } => CheckedExprKindView::MethodCall {
            method: Box::new(cfunction_view(*method)),
            args: cexprs_view(args@),
        },
        CheckedExprKind::BuiltinMethodCall { method, receiver, args } => CheckedExprKindView::BuiltinMethodCall {
            method,
            receiver: Box::new(cexpr_view(*receiver)),
            args: cexprs_view(args@),
        },
    };
    CheckedExprView { kind, type_id: e.type_id, span: e.span }
}

pub open spec fn cexprs_view(s: Seq<CheckedExpr>) -> Seq<CheckedExprView>
    decreases s,
{
    if s.len() == 0 {
        Seq::empty()
    } else {
        proof {
            assert(decreases_to!(s => s.drop_last()));
        }
        cexprs_view(s.drop_last()).push(cexpr_view(s.last()))
    }
}

pub open spec fn cfunction_view(f: CheckedFunctionItem) -> CheckedFunctionView
    decreases f,
{
    CheckedFunctionView {
        name: f.name@,
        return_type: f.return_type,
        parameters: params_view(f.parameters@),
        body: cstmt_view(f.body),
    }
}

pub open spec fn cstmt_view(s: CheckedStmt) -> CheckedStmtView
    decreases s,
{
    match s {
        CheckedStmt::Let { name, var_type, expr } => CheckedStmtView::Let {
            name: name@,
            var_type,
            expr: cexpr_view(*expr),
        },
        CheckedStmt::Assignment { name, expr } => CheckedStmtView::Assignment {
            name: name@,
            expr: cexpr_view(*expr),
        },
        CheckedStmt::If { condition, then_branch, else_branch } => CheckedStmtView::If {
            condition: cexpr_view(*condition),
            then_branch: Box::new(cstmt_view(*then_branch)),
            else_branch: match else_branch {
                Some(b) => Some(Box::new(cstmt_view(*b))),
                None => None,
            },
        },
        CheckedStmt::Loop { body } => CheckedStmtView::Loop { body: Box::new(cstmt_view(*body)) },
        CheckedStmt::While { condition, body } => CheckedStmtView::While {
            condition: cexpr_view(*condition),
            body: Box::new(cstmt_view(*body)),
        },
        CheckedStmt::CompoundAssignment { name, op, expr } => CheckedStmtView::CompoundAssignment {
            name: name@,
            op,
            expr: cexpr_view(*expr),
        },
        CheckedStmt::Block { block_kind, statements } => CheckedStmtView::Block {
            block_kind,
            statements: cstmts_view(statements@),
        },
        CheckedStmt::Return { expr } => CheckedStmtView::Return {
            expr: match expr {
                Some(e) => Some(cexpr_view(*e)),
                None => None,
            },
        },
        CheckedStmt::Continue => CheckedStmtView::Continue,
        CheckedStmt::Break => CheckedStmtView::Break,
        CheckedStmt::Expression { expr } => CheckedStmtView::Expression { expr: cexpr_view(*expr) },
    }
}

pub open spec fn cstmts_view(s: Seq<CheckedStmt>) -> Seq<CheckedStmtView>
    decreases s,
{
    if s.len() == 0 {
        Seq::empty()
    } else {
        proof {
            assert(decreases_to!(s => s.drop_last()));
        }
        cstmts_view(s.drop_last()).push(cstmt_view(s.last()))
    }
}

pub open spec fn cfunctions_view(s: Seq<CheckedFunctionItem>) -> Seq<CheckedFunctionView> {
    s.map_values(|f: CheckedFunctionItem| cfunction_view(f))
}

impl View for CheckedExpr {
    type V = CheckedExprView;

    open spec fn view(&self) -> CheckedExprView {
        cexpr_view(*self)
    }
}

impl View for CheckedStmt {
    type V = CheckedStmtView;

    open spec fn view(&self) -> CheckedStmtView {
        cstmt_view(*self)
    }
}

impl View for CheckedFunctionItem {
    type V = CheckedFunctionView;

    open spec fn view(&self) -> CheckedFunctionView {
        cfunction_view(*self)
    }
}

/// A copy of the parameter list.
pub fn duplicate_params(p: &Vec<(String, TypeId)>) -> (r: Vec<(String, TypeId)>)
    ensures
        params_view(r@) == params_view(p@),
{
    let mut r: Vec<(String, TypeId)> = Vec::new();
    let mut i: usize = 0;
    while i < p.len()
        invariant
            i <= p@.len(),
            params_view(r@) =~= params_view(p@.take(i as int)),
        decreases p@.len() - i,
    {
        let name = p[i].0.clone();
        assert(name@ == p@[i as int].0@);
        let ghost before = r@;
        r.push((name, p[i].1));
        proof {
            assert(r@ == before.push((name, p@[i as int].1)));
            assert(params_view(r@) =~= params_view(before).push((p@[i as int].0@, p@[i as int].1)));
            assert(p@.take(i + 1) =~= p@.take(i as int).push(p@[i as int]));
            assert(params_view(p@.take(i + 1)) =~= params_view(p@.take(i as int)).push((p@[i as int].0@, p@[i as int].1)));
        }
        i = i + 1;
    }
    proof {
        assert(p@.take(p@.len() as int) =~= p@);
    }
    r
}

impl CheckedExpr {
    /// A deep copy.
    pub fn duplicate(&self) -> (r: CheckedExpr)
        ensures
            r@ == self@,
        decreases self,
    {
        let kind = match &self.kind {
            CheckedExprKind::Literal(l) => CheckedExprKind::Literal(l.duplicate()),
            CheckedExprKind::Identifier(n) => CheckedExprKind::Identifier(n.clone()),
            CheckedExprKind::BuiltinFnCall { function, args } => CheckedExprKind::BuiltinFnCall {
                function: *function,
                args: duplicate_exprs(args),
            },
            CheckedExprKind::FnCall(c) => CheckedExprKind::FnCall(
                CheckedFunctionCall { name: c.name.clone(), args: duplicate_exprs(&c.args) },
            ),
            CheckedExprKind::PrefixOp { op, expr } => CheckedExprKind::PrefixOp {
                op: *op,
                expr: Box::new(expr.duplicate()),
            },
            CheckedExprKind::InfixOp { op, lhs, rhs } => CheckedExprKind::InfixOp {
                op: *op,
                lhs: Box::new(lhs.duplicate()),
                rhs: Box::new(rhs.duplicate()),
            },
            CheckedExprKind::PostfixOp { op, expr } => CheckedExprKind::PostfixOp {
                op: *op,
                expr: Box::new(expr.duplicate()),
            },
            CheckedExprKind::MethodCall { method, args } => CheckedExprKind::MethodCall {
                method: Box::new(method.duplicate()),
                args: duplicate_exprs(args),
            },
            CheckedExprKind::BuiltinMethodCall { method, receiver, args } => CheckedExprKind::BuiltinMethodCall {
                method: *method,
                receiver: Box::new(receiver.duplicate()),
                args: duplicate_exprs(args),
            },
        };
        CheckedExpr { kind, type_id: self.type_id, span: self.span }
    }
}

/// A deep copy of a list of expressions.
pub fn duplicate_exprs(v: &Vec<CheckedExpr>) -> (r: Vec<CheckedExpr>)
    ensures
        cexprs_view(r@) == cexprs_view(v@),
    decreases v,
{
    let mut r: Vec<CheckedExpr> = Vec::new();
    let mut i: usize = 0;
    while i < v.len()
        invariant
            i <= v@.len(),
            cexprs_view(r@) == cexprs_view(v@.take(i as int)),
        decreases v@.len() - i,
    {
        assert(decreases_to!(v => v@[i as int]));
        let e = v[i].duplicate();
        let ghost before = r@;
        r.push(e);
        proof {
            assert(r@.drop_last() =~= before);
            assert(v@.take(i + 1).drop_last() =~= v@.take(i as int));
        }
        i = i + 1;
    }
    proof {
        assert(v@.take(v@.len() as int) =~= v@);
    }
    r
}

impl CheckedStmt {
    /// A deep copy.
    pub fn duplicate(&self) -> (r: CheckedStmt)
        ensures
            r@ == self@,
        decreases self,
    {
        match self {
            CheckedStmt::Let { name, var_type, expr } => CheckedStmt::Let {
                name: name.clone(),
                var_type: *var_type,
                expr: Box::new(expr.duplicate()),
            },
            CheckedStmt::Assignment { name, expr } => CheckedStmt::Assignment {
                name: name.clone(),
                expr: Box::new(expr.duplicate()),
            },
            CheckedStmt::If { condition, then_branch, else_branch } => CheckedStmt::If {
                condition: Box::new(condition.duplicate()),
                then_branch: Box::new(then_branch.duplicate()),
                else_branch: match else_branch {
                    Some(b) => Some(Box::new(b.duplicate())),
                    None => None,
                },
            },
            CheckedStmt::Loop { body } => CheckedStmt::Loop { body: Box::new(body.duplicate()) },
            CheckedStmt::While { condition, body } => CheckedStmt::While {
                condition: Box::new(condition.duplicate()),
                body: Box::new(body.duplicate()),
            },
            CheckedStmt::CompoundAssignment { name, op, expr } => CheckedStmt::CompoundAssignment {
                name: name.clone(),
                op: *op,
                expr: Box::new(expr.duplicate()),
            },
            CheckedStmt::Block { block_kind, statements } => CheckedStmt::Block {
                block_kind: *block_kind,
                statements: duplicate_stmts(statements),
            },
            CheckedStmt::Return { expr } => CheckedStmt::Return {
                expr: match expr {
                    Some(e) => Some(Box::new(e.duplicate())),
                    None => None,
                },
            },
            CheckedStmt::Continue => CheckedStmt::Continue,
            CheckedStmt::Break => CheckedStmt::Break,
            CheckedStmt::Expression { expr } => CheckedStmt::Expression {
                expr: Box::new(expr.duplicate()),
            },
        }
    }
}

/// A deep copy of a list of statements.
pub fn duplicate_stmts(v: &Vec<CheckedStmt>) -> (r: Vec<CheckedStmt>)
    ensures
        cstmts_view(r@) == cstmts_view(v@),
    decreases v,
{
    let mut r: Vec<CheckedStmt> = Vec::new();
    let mut i: usize = 0;
    while i < v.len()
        invariant
            i <= v@.len(),
            cstmts_view(r@) == cstmts_view(v@.take(i as int)),
        decreases v@.len() - i,
    {
        assert(decreases_to!(v => v@[i as int]));
        let s = v[i].duplicate();
        let ghost before = r@;
        r.push(s);
        proof {
            assert(r@.drop_last() =~= before);
            assert(v@.take(i + 1).drop_last() =~= v@.take(i as int));
        }
        i = i + 1;
    }
    proof {
        assert(v@.take(v@.len() as int) =~= v@);
    }
    r
}

impl CheckedFunctionItem {
    pub fn new(name: &str, return_type: TypeId, parameters: Vec<(String, TypeId)>, body: CheckedStmt) -> (f: Self)
        ensures
            f.name@ == name@,
            f.return_type == return_type,
            f.parameters == parameters,
            f.body == body,
    {
        CheckedFunctionItem { name: name.to_string(), return_type, parameters, body }
    }

    /// A deep copy.
    pub fn duplicate(&self) -> (r: CheckedFunctionItem)
        ensures
            r@ == self@,
        decreases self,
    {
        CheckedFunctionItem {
            name: self.name.clone(),
            return_type: self.return_type,
            parameters: duplicate_params(&self.parameters),
            body: self.body.duplicate(),
        }
    }

    pub fn name(&self) -> (n: &str)
        ensures
            n@ == self.name@,
    {
        self.name.as_str()
    }

    pub fn return_type(&self) -> (t: TypeId)
        ensures
            t == self.return_type,
    {
        self.return_type
    }

    pub fn parameters(&self) -> (p: &Vec<(String, TypeId)>)
        ensures
            p == &self.parameters,
    {
        &self.parameters
    }

    pub fn body(&self) -> (b: &CheckedStmt)
        ensures
            b == &self.body,
    {
        &self.body
    }

    pub fn set_body(&mut self, body: CheckedStmt)
        ensures
            final(self).body == body,
            final(self).name == old(self).name,
            final(self).return_type == old(self).return_type,
            final(self).parameters == old(self).parameters,
    {
        self.body = body;
    }
}

impl CheckedExpr {
    pub fn kind(&self) -> (k: &CheckedExprKind)
        ensures
            k == &self.kind,
    {
        &self.kind
    }

    pub fn type_id(&self) -> (t: TypeId)
        ensures
            t == self.type_id,
    {
        self.type_id
    }

    pub fn span(&self) -> (s: Span)
        ensures
            s == self.span,
    {
        self.span
    }
}

impl CheckedFunctionCall {
    pub fn new(name: String, args: Vec<CheckedExpr>) -> (c: Self)
        ensures
            c.name == name,
            c.args == args,
    {
        CheckedFunctionCall { name, args }
    }

    pub fn name(&self) -> (n: &str)
        ensures
            n@ == self.name@,
    {
        self.name.as_str()
    }

    pub fn args(&self) -> (a: &Vec<CheckedExpr>)
        ensures
            a == &self.args,
    {
        &self.args
    }
}

} // verus!
