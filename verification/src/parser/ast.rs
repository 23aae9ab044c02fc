//! Pieces of the syntax tree shared by the parser, the typechecker and the interpreter.
use vstd::prelude::*;

verus! {

/// What a block belongs to: a plain block, a loop body or a function body.
#[derive(Debug, Clone, Copy, PartialEq, Eq, Hash, Structural)]
pub enum BlockKind {
    Regular,
    Loop,
    Function,
}

/// A literal. A float literal is kept as its source text.
#[derive(Debug)]
pub enum Literal {
    Int(i64),
    Float(String),
    String(String),
    Bool(bool),
}

pub enum LiteralView {
    Int(i64),
    Float(Seq<char>),
    String(Seq<char>),
    Bool(bool),
}

impl View for Literal {
    type V = LiteralView;

    open spec fn view(&self) -> LiteralView {
        match self {
            Literal::Int(v) => LiteralView::Int(*v),
            Literal::Float(t) => LiteralView::Float(t@),
            Literal::String(s) => LiteralView::String(s@),
            Literal::Bool(b) => LiteralView::Bool(*b),
        }
    }
}

impl Literal {
    /// A copy of the literal.
    pub fn duplicate(&self) -> (l: Literal)
        ensures
            l@ == self@,
    {
        match self {
            Literal::Int(v) => Literal::Int(*v),
            Literal::Float(t) => Literal::Float(t.clone()),
            Literal::String(s) => Literal::String(s.clone()),
            Literal::Bool(b) => Literal::Bool(*b),
        }
    }
}

} // verus!
