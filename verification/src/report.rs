//! What an error report shows: the message and, for an error with a place in the source, the
//! line it is on and the part of that line to mark.
use vstd::prelude::*;

use crate::error::{BauError, BauErrorView};
use crate::messages::{bau_message, digits, digits_text};
use crate::source::{line_and_column_from, Source, SourceView, Span};

verus! {

/// Where an error is: the file, the one-based line and column, the text of that line, which
/// characters of it to mark, how wide the column of line numbers is, and whether to underline
/// the place (not for a general error, whose span is `0..0`).
pub struct ReportLocation {
    pub file_path: String,
    pub line: usize,
    pub column: usize,
    pub line_text: String,
    pub highlight_start: usize,
    pub highlight_len: usize,
    pub gutter_width: usize,
    pub underline: bool,
}

/// The message of an error, and where it is if it has a place in the source.
pub struct ErrorReport {
    pub message: String,
    pub location: Option<ReportLocation>,
}

pub struct LocationView {
    pub file_path: Seq<char>,
    pub line: int,
    pub column: int,
    pub line_text: Seq<char>,
    pub highlight_start: int,
    pub highlight_len: int,
    pub gutter_width: int,
    pub underline: bool,
}

pub open spec fn min(a: int, b: int) -> int {
    if a <= b {
        a
    } else {
        b
    }
}

/// Where the span is in the source: the line and column of its start, that line's text, and
/// the part of the span that lies on it.
pub open spec fn location_of(src: SourceView, span: Span) -> LocationView {
    let (line, column) = line_and_column_from(src.text, span.start as int, 0, 1, 1);
    let line_text = if 1 <= line <= src.lines.len() {
        src.lines[line - 1]
    } else {
        Seq::empty()
    };
    let start = min(column - 1, line_text.len() as int);
    let len = if span.start <= span.end {
        span.end - span.start
    } else {
        0
    };
    LocationView {
        file_path: src.file_path,
        line,
        column,
        line_text,
        highlight_start: start,
        highlight_len: min(len, line_text.len() - start),
        gutter_width: digits(src.lines.len()).len() as int,
        underline: !(span.start == 0 && span.end == 0),
    }
}

/// The place of an error in the source: parser and typechecker errors have their own; an
/// execution error has none, and is shown at the start of the source.
pub open spec fn error_span(e: BauErrorView) -> Option<Span> {
    match e {
        BauErrorView::ParserError(p) => Some(p.range.span),
        BauErrorView::TypecheckerError(t) => Some(t.span),
        BauErrorView::ExecutionError(_) => Some(Span { start: 0, end: 0 }),
    }
}

impl ReportLocation {
    pub open spec fn view(&self) -> LocationView {
        LocationView {
            file_path: self.file_path@,
            line: self.line as int,
            column: self.column as int,
            line_text: self.line_text@,
            highlight_start: self.highlight_start as int,
            highlight_len: self.highlight_len as int,
            gutter_width: self.gutter_width as int,
            underline: self.underline,
        }
    }
}

/// Where a span is in a source.
pub fn locate(source: &Source, span: Span) -> (loc: ReportLocation)
    requires
        source@.text.len() < usize::MAX,
    ensures
        loc.view() == location_of(source@, span),
{
    let (line, column) = source.line_and_column(span.start);
    let lines = source.lines();
    let line_text = if 1 <= line && line <= lines.len() {
        assert(source@.lines[line - 1] == lines@[line - 1]@);
        lines[line - 1].clone()
    } else {
        String::new()
    };
    let text_len = crate::text::chars_of(line_text.as_str()).len();
    let start = if column - 1 <= text_len {
        column - 1
    } else {
        text_len
    };
    let len = if span.start <= span.end {
        span.end - span.start
    } else {
        0
    };
    let highlight_len = if len <= text_len - start {
        len
    } else {
        text_len - start
    };
    let gutter = crate::text::chars_of(digits_text(lines.len() as u64).as_str()).len();
    ReportLocation {
        file_path: source.file_path().to_string(),
        line,
        column,
        line_text,
        highlight_start: start,
        highlight_len,
        gutter_width: gutter,
        underline: !(span.start == 0 && span.end == 0),
    }
}

impl BauError {
    /// The report of the error: its message, and where it is in the source (the start of the
    /// source for an execution error).
    pub fn report(&self, source: &Source) -> (r: ErrorReport)
        requires
            source@.text.len() < usize::MAX,
        ensures
            r.message@ == bau_message(self@),
            match error_span(self@) {
                Some(span) => r.location matches Some(loc) && loc.view() == location_of(source@, span),
                None => r.location is None,
            },
    {
        let message = self.message();
        let location = match self {
            BauError::ParserError(e) => Some(locate(source, e.range.span)),
            BauError::TypecheckerError(e) => Some(locate(source, e.span)),
            BauError::ExecutionError(_) => Some(locate(source, Span::new(0, 0))),
        };
        ErrorReport { message, location }
    }
}

} // verus!
