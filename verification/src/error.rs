//! Every error a run can end in.
use vstd::prelude::*;

use crate::interpreter::error::{ExecutionError, ExecutionErrorKindView};
use crate::parser::error::ParserError;
use crate::typechecker::error::{TypecheckerError, TypecheckerErrorView};

verus! {

#[derive(Debug, PartialEq)]
pub enum BauError {
    ParserError(ParserError),
    TypecheckerError(TypecheckerError),
    ExecutionError(ExecutionError),
}

pub enum BauErrorView {
    ParserError(ParserError),
    TypecheckerError(TypecheckerErrorView),
    ExecutionError(ExecutionErrorKindView),
}

impl View for BauError {
    type V = BauErrorView;

    open spec fn view(&self) -> BauErrorView {
        match self {
            BauError::ParserError(e) => BauErrorView::ParserError(*e),
            BauError::TypecheckerError(e) => BauErrorView::TypecheckerError(e@),
            BauError::ExecutionError(e) => BauErrorView::ExecutionError(e@),
        }
    }
}

pub type BauResult<T> = Result<T, BauError>;

} // verus!
