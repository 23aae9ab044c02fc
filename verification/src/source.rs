//! Source text, positions in it, and the ranges that tokens and errors refer to.
//!
//! All positions count characters of the (tab-expanded) source text.
use vstd::prelude::*;

use crate::text::{chars_of, string_from_chars};
use crate::tokenizer::token::{Token, TokenKind};
use crate::tokenizer::{lemma_coords_after, make_token};

verus! {

/// A half-open range `start..end` of character positions.
#[derive(Debug, Clone, Copy, PartialEq, Eq, Structural)]
pub struct Span {
    pub start: usize,
    pub end: usize,
}

impl Span {
    pub fn new(start: usize, end: usize) -> (s: Self)
        ensures
            s.start == start,
            s.end == end,
    {
        Span { start, end }
    }

    /// The number of positions the span covers.
    pub fn len(&self) -> (n: usize)
        requires
            self.start <= self.end,
        ensures
            n == self.end - self.start,
    {
        self.end - self.start
    }
}

/// A zero-based line and column.
#[derive(Debug, Clone, Copy, PartialEq, Eq, Structural)]
pub struct SourceCoords {
    pub line: usize,
    pub column: usize,
}

impl SourceCoords {
    pub fn new(line: usize, column: usize) -> (c: Self)
        ensures
            c.line == line,
            c.column == column,
    {
        SourceCoords { line, column }
    }
}

/// A span together with the coordinates of its first position.
#[derive(Debug, Clone, Copy, PartialEq, Eq, Structural)]
pub struct CodeRange {
    pub span: Span,
    pub coords: SourceCoords,
}

impl CodeRange {
    pub fn new(span: Span, coords: SourceCoords) -> (r: Self)
        ensures
            r.span == span,
            r.coords == coords,
    {
        CodeRange { span, coords }
    }

    /// The range from the start of `start` to the end of `end`.
    pub fn from_ranges(start: CodeRange, end: CodeRange) -> (r: Self)
        ensures
            r.span.start == start.span.start,
            r.span.end == end.span.end,
            r.coords == start.coords,
    {
        CodeRange { span: Span::new(start.span.start, end.span.end), coords: start.coords }
    }
}

/// The text with every tab replaced by four spaces.
pub open spec fn expand_tabs(s: Seq<char>) -> Seq<char>
    decreases s.len(),
{
    if s.len() == 0 {
        Seq::empty()
    } else if s.last() == '\t' {
        expand_tabs(s.drop_last()) + seq![' ', ' ', ' ', ' ']
    } else {
        expand_tabs(s.drop_last()).push(s.last())
    }
}

/// The index of the first `'\n'` in `s` at or after `from`.
pub open spec fn next_newline(s: Seq<char>, from: int) -> Option<int>
    decreases s.len() - from,
{
    if from < 0 || from >= s.len() {
        None
    } else if s[from] == '\n' {
        Some(from)
    } else {
        next_newline(s, from + 1)
    }
}

/// A line as `str::lines` yields it: a `'\r'` right before the newline is dropped.
pub open spec fn strip_carriage_return(line: Seq<char>) -> Seq<char> {
    if line.len() > 0 && line.last() == '\r' {
        line.drop_last()
    } else {
        line
    }
}

/// The lines of `s[from..]`, as `str::lines` splits them.
pub open spec fn lines_from(s: Seq<char>, from: int) -> Seq<Seq<char>>
    decreases s.len() - from,
{
    if from < 0 || from >= s.len() {
        Seq::empty()
    } else {
        match next_newline(s, from) {
            None => seq![s.subrange(from, s.len() as int)],
            Some(i) => if from <= i < s.len() {
                seq![strip_carriage_return(s.subrange(from, i))] + lines_from(s, i + 1)
            } else {
                Seq::empty()
            },
        }
    }
}

/// The lines of `s`, as `str::lines` splits them.
pub open spec fn lines_of(s: Seq<char>) -> Seq<Seq<char>> {
    lines_from(s, 0)
}

/// The one-based line and column of position `index`, counting from `from` at `(line, column)`;
/// past the end, the position just after the text.
pub open spec fn line_and_column_from(s: Seq<char>, index: int, from: int, line: int, column: int) -> (int, int)
    decreases s.len() - from,
{
    if from < 0 || from >= s.len() || from == index {
        (line, column)
    } else if s[from] == '\n' {
        line_and_column_from(s, index, from + 1, line + 1, 1)
    } else {
        line_and_column_from(s, index, from + 1, line, column + 1)
    }
}

/// Expanding tabs leaves no tab, and changes no other character.
pub proof fn law_no_tabs(s: Seq<char>)
    ensures
        forall|i: int| 0 <= i < expand_tabs(s).len() ==> #[trigger] expand_tabs(s)[i] != '\t',
        (forall|i: int| 0 <= i < s.len() ==> #[trigger] s[i] != '\t') ==> expand_tabs(s) == s,
    decreases s.len(),
{
    if s.len() > 0 {
        law_no_tabs(s.drop_last());
        let e = expand_tabs(s);
        let e0 = expand_tabs(s.drop_last());
        assert forall|i: int| 0 <= i < e.len() implies #[trigger] e[i] != '\t' by {
            if i < e0.len() {
                assert(e[i] == e0[i]);
            }
        }
        if forall|i: int| 0 <= i < s.len() ==> #[trigger] s[i] != '\t' {
            assert forall|i: int| 0 <= i < s.drop_last().len() implies #[trigger] s.drop_last()[i] != '\t' by {
                assert(s.drop_last()[i] == s[i]);
            }
            assert(s.drop_last().push(s.last()) =~= s);
        }
    }
}

proof fn lemma_next_newline(s: Seq<char>, from: int)
    requires
        0 <= from,
    ensures
        match next_newline(s, from) {
            Some(i) => from <= i < s.len() && s[i] == '\n' && forall|k: int| from <= k < i ==> #[trigger] s[k] != '\n',
            None => forall|k: int| from <= k < s.len() ==> #[trigger] s[k] != '\n',
        },
    decreases s.len() - from,
{
    if from < s.len() && s[from] != '\n' {
        lemma_next_newline(s, from + 1);
    }
}

/// No line holds a newline.
pub proof fn law_lines_have_no_newline(s: Seq<char>, from: int)
    requires
        0 <= from,
    ensures
        forall|i: int, j: int|
            0 <= i < lines_from(s, from).len() && 0 <= j < lines_from(s, from)[i].len() ==> #[trigger] lines_from(
                s,
                from,
            )[i][j] != '\n',
    decreases s.len() - from,
{
    if 0 <= from < s.len() {
        lemma_next_newline(s, from);
        let ls = lines_from(s, from);
        match next_newline(s, from) {
            None => {
                assert forall|i: int, j: int| 0 <= i < ls.len() && 0 <= j < ls[i].len() implies #[trigger] ls[i][j]
                    != '\n' by {
                    assert(ls[i][j] == s[from + j]);
                }
            },
            Some(n) => {
                law_lines_have_no_newline(s, n + 1);
                let rest = lines_from(s, n + 1);
                let first = strip_carriage_return(s.subrange(from, n));
                assert(ls == seq![first] + rest);
                assert forall|i: int, j: int| 0 <= i < ls.len() && 0 <= j < ls[i].len() implies #[trigger] ls[i][j]
                    != '\n' by {
                    if i == 0 {
                        assert(first[j] == s[from + j]);
                    } else {
                        assert(ls[i] == rest[i - 1]);
                    }
                }
            },
        }
    }
}

/// The zero-based coordinates just after the characters `s[..n]`: a newline starts a new line.
pub open spec fn coords_after(s: Seq<char>, line: int, column: int) -> (int, int)
    decreases s.len(),
{
    if s.len() == 0 {
        (line, column)
    } else {
        let (l, c) = coords_after(s.drop_last(), line, column);
        if s.last() == '\n' {
            (l + 1, 0)
        } else {
            (l, c + 1)
        }
    }
}

/// The end-of-file token of `text`: empty, at its end, with the coordinates reached there.
pub open spec fn eof_token_of(text: Seq<char>) -> Token {
    let (l, c) = coords_after(text, 0, 0);
    make_token(TokenKind::EndOfFile, text.len() as int, 0, l, c)
}

/// The end-of-file token of a text: empty, just after its last character.
pub fn eof_token_of_text(text: &str) -> (t: Token)
ensures
    t == eof_token_of(text@),
{
    let chars = chars_of(text);
    let mut line: usize = 0;
    let mut column: usize = 0;
    let mut i: usize = 0;
    while i < chars.len()
        invariant
            chars@ == text@,
            i <= chars@.len(),
            line + column <= i,
            (line as int, column as int) == coords_after(chars@.take(i as int), 0, 0),
        decreases chars@.len() - i,
    {
        proof {
            lemma_coords_after(chars@.take(i as int), 0, 0);
            assert(chars@.take(i + 1).drop_last() =~= chars@.take(i as int));
        }
        if chars[i] == '\n' {
            line = line + 1;
            column = 0;
        } else {
            column = column + 1;
        }
        i = i + 1;
    }
    proof {
        assert(chars@.take(chars@.len() as int) =~= chars@);
    }
    let n = chars.len();
    Token::new(
        TokenKind::EndOfFile,
        CodeRange::new(Span::new(n, n), SourceCoords::new(line, column)),
    )
}

/// The number of newlines in `s`.
pub open spec fn count_newlines(s: Seq<char>) -> nat
    decreases s.len(),
{
    if s.len() == 0 {
        0
    } else {
        count_newlines(s.drop_last()) + if s.last() == '\n' {
            1nat
        } else {
            0nat
        }
    }
}

/// The number of characters of `s` after its last newline (all of them if it has none).
pub open spec fn chars_since_newline(s: Seq<char>) -> nat
    decreases s.len(),
{
    if s.len() == 0 {
        0
    } else if s.last() == '\n' {
        0
    } else {
        chars_since_newline(s.drop_last()) + 1
    }
}

/// Walking a text from the start reaches, zero-based, the line that is its number of newlines
/// and the column that is its number of characters since the last of them.
pub proof fn law_coords_count(s: Seq<char>)
    ensures
        coords_after(s, 0, 0) == (count_newlines(s) as int, chars_since_newline(s) as int),
    decreases s.len(),
{
    if s.len() > 0 {
        law_coords_count(s.drop_last());
    }
}

proof fn lemma_line_and_column_walk(text: Seq<char>, index: int, from: int, k: int)
    requires
        0 <= from <= k,
        k == (if index < text.len() { index } else { text.len() as int }),
        0 <= index,
    ensures
        line_and_column_from(
            text,
            index,
            from,
            1 + count_newlines(text.take(from)) as int,
            1 + chars_since_newline(text.take(from)) as int,
        ) == (1 + count_newlines(text.take(k)) as int, 1 + chars_since_newline(text.take(k)) as int),
    decreases text.len() - from,
{
    if from < k {
        assert(text.take(from + 1).drop_last() =~= text.take(from));
        assert(text.take(from + 1).last() == text[from]);
        lemma_line_and_column_walk(text, index, from + 1, k);
    }
}

/// The one-based line and column of a position are one more than the number of newlines
/// before it and one more than the number of characters since the last of them; a position
/// past the end counts the whole text.
pub proof fn law_line_and_column_count(text: Seq<char>, index: int)
    requires
        0 <= index,
    ensures
        ({
            let k = if index < text.len() { index } else { text.len() as int };
            line_and_column_from(text, index, 0, 1, 1) == (
                1 + count_newlines(text.take(k)) as int,
                1 + chars_since_newline(text.take(k)) as int,
            )
        }),
{
    let k = if index < text.len() { index } else { text.len() as int };
    assert(text.take(0) =~= Seq::<char>::empty());
    lemma_line_and_column_walk(text, index, 0, k);
}

/// Counting over a text split in two.
proof fn lemma_count_split(s: Seq<char>, a: int, m: int, b: int)
    requires
        0 <= a <= m <= b <= s.len(),
    ensures
        count_newlines(s.subrange(a, b)) == count_newlines(s.subrange(a, m)) + count_newlines(
            s.subrange(m, b),
        ),
        chars_since_newline(s.subrange(a, b)) as int == if count_newlines(s.subrange(m, b)) > 0 {
            chars_since_newline(s.subrange(m, b)) as int
        } else {
            chars_since_newline(s.subrange(a, m)) + (b - m)
        },
    decreases b - m,
{
    if b > m {
        lemma_count_split(s, a, m, b - 1);
        assert(s.subrange(a, b).drop_last() =~= s.subrange(a, b - 1));
        assert(s.subrange(m, b).drop_last() =~= s.subrange(m, b - 1));
    } else {
        assert(s.subrange(m, b) =~= Seq::<char>::empty());
        assert(s.subrange(a, b) =~= s.subrange(a, m));
    }
}

/// A text without newlines has none to count.
proof fn lemma_no_newline(s: Seq<char>)
    requires
        forall|i: int| 0 <= i < s.len() ==> #[trigger] s[i] != '\n',
    ensures
        count_newlines(s) == 0,
        chars_since_newline(s) == s.len(),
    decreases s.len(),
{
    if s.len() > 0 {
        assert forall|i: int| 0 <= i < s.drop_last().len() implies #[trigger] s.drop_last()[i] != '\n' by {
            assert(s.drop_last()[i] == s[i]);
        }
        lemma_no_newline(s.drop_last());
    }
}

/// Whether a text holds no carriage return.
pub open spec fn no_carriage_return(s: Seq<char>) -> bool {
    forall|i: int| 0 <= i < s.len() ==> #[trigger] s[i] != '\r'
}

proof fn lemma_line_holds(s: Seq<char>, from: int, p: int)
    requires
        0 <= from <= p < s.len(),
        s[p] != '\n',
        no_carriage_return(s),
    ensures
        count_newlines(s.subrange(from, p)) < lines_from(s, from).len(),
        chars_since_newline(s.subrange(from, p)) < lines_from(s, from)[count_newlines(
            s.subrange(from, p),
        ) as int].len(),
        lines_from(s, from)[count_newlines(s.subrange(from, p)) as int][chars_since_newline(
            s.subrange(from, p),
        ) as int] == s[p],
    decreases s.len() - from,
{
    lemma_next_newline(s, from);
    match next_newline(s, from) {
        None => {
            lemma_no_newline(s.subrange(from, p));
            assert(lines_from(s, from) == seq![s.subrange(from, s.len() as int)]);
        },
        Some(n) => {
            if p < n {
                lemma_no_newline(s.subrange(from, p));
                let line = s.subrange(from, n);
                assert(line.len() == 0 || line.last() != '\r');
                assert(strip_carriage_return(line) == line);
                assert(lines_from(s, from)[0] == line);
            } else {
                lemma_no_newline(s.subrange(from, n));
                lemma_count_split(s, from, n + 1, p);
                lemma_count_split(s, from, n, n + 1);
                lemma_count_split(s, n + 1, n + 1, p);
                assert(s.subrange(n + 1, n + 1) =~= Seq::<char>::empty());
                assert(chars_since_newline(Seq::<char>::empty()) == 0);
                assert(chars_since_newline(seq!['\n']) == 0);
                assert(s.subrange(n, n + 1) =~= seq!['\n']);
                assert(count_newlines(seq!['\n']) == 1) by {
                    assert(seq!['\n'].drop_last() =~= Seq::<char>::empty());
                    assert(count_newlines(Seq::<char>::empty()) == 0);
                    assert(seq!['\n'].last() == '\n');
                }
                lemma_line_holds(s, n + 1, p);
                let rest = lines_from(s, n + 1);
                assert(lines_from(s, from) == seq![strip_carriage_return(s.subrange(from, n))] + rest);
                let j = count_newlines(s.subrange(from, p)) as int;
                assert(lines_from(s, from)[j] == rest[j - 1]);
            }
        },
    }
}

/// `line` and `line_and_column` address the same character: in a text without carriage
/// returns, the character at a position that is no newline stands in the line that
/// `line_and_column` names, at the column it names.
pub proof fn law_line_and_column_match(text: Seq<char>, i: int)
    requires
        0 <= i < text.len(),
        text[i] != '\n',
        no_carriage_return(text),
    ensures
        ({
            let (l, c) = line_and_column_from(text, i, 0, 1, 1);
            &&& 1 <= l <= lines_of(text).len()
            &&& 1 <= c <= lines_of(text)[l - 1].len()
            &&& lines_of(text)[l - 1][c - 1] == text[i]
        }),
{
    law_line_and_column_count(text, i);
    assert(text.take(i) =~= text.subrange(0, i));
    lemma_line_holds(text, 0, i);
}

/// The lines joined by newlines.
pub open spec fn join_lines(ls: Seq<Seq<char>>) -> Seq<char>
    decreases ls.len(),
{
    if ls.len() == 0 {
        Seq::empty()
    } else if ls.len() == 1 {
        ls[0]
    } else {
        ls[0] + seq!['\n'] + join_lines(ls.subrange(1, ls.len() as int))
    }
}

proof fn lemma_lines_join(s: Seq<char>, from: int)
    requires
        0 <= from <= s.len(),
        no_carriage_return(s),
        s.len() == 0 || s.last() != '\n',
    ensures
        join_lines(lines_from(s, from)) == s.subrange(from, s.len() as int),
        from < s.len() ==> lines_from(s, from).len() == 1 + count_newlines(s.subrange(from, s.len() as int)),
    decreases s.len() - from,
{
    if from == s.len() {
        assert(s.subrange(from, s.len() as int) =~= Seq::<char>::empty());
    } else {
        lemma_next_newline(s, from);
        match next_newline(s, from) {
            None => {
                lemma_no_newline(s.subrange(from, s.len() as int));
            },
            Some(n) => {
                assert(n < s.len() - 1);
                lemma_lines_join(s, n + 1);
                let line = s.subrange(from, n);
                assert(line.len() == 0 || line.last() != '\r');
                let rest = lines_from(s, n + 1);
                let ls = lines_from(s, from);
                assert(ls == seq![strip_carriage_return(line)] + rest);
                assert(ls.subrange(1, ls.len() as int) =~= rest);
                assert(rest.len() >= 1);
                assert(s.subrange(from, s.len() as int) =~= line + seq!['\n'] + s.subrange(n + 1, s.len() as int));
                lemma_count_split(s, from, n + 1, s.len() as int);
                lemma_count_split(s, from, n, n + 1);
                lemma_no_newline(line);
                assert(s.subrange(n, n + 1) =~= seq!['\n']);
                assert(count_newlines(seq!['\n']) == 1) by {
                    assert(seq!['\n'].drop_last() =~= Seq::<char>::empty());
                    assert(count_newlines(Seq::<char>::empty()) == 0);
                    assert(seq!['\n'].last() == '\n');
                }
            },
        }
    }
}

/// In a text without carriage returns that does not end with a newline, the lines joined by
/// newlines give the text back, and there is one more line than newlines (none for the empty
/// text).
pub proof fn law_lines_join(text: Seq<char>)
    requires
        no_carriage_return(text),
        text.len() == 0 || text.last() != '\n',
    ensures
        join_lines(lines_of(text)) == text,
        lines_of(text).len() == if text.len() == 0 {
            0
        } else {
            1 + count_newlines(text)
        },
{
    lemma_lines_join(text, 0);
    assert(text.subrange(0, text.len() as int) =~= text);
}

/// A source file: its path, its text with tabs expanded, and its lines.
pub struct Source {
    file_path: String,
    text: String,
    lines: Vec<String>,
    line_count: usize,
}

/// What a source holds, as plain values.
pub struct SourceView {
    pub file_path: Seq<char>,
    pub text: Seq<char>,
    pub lines: Seq<Seq<char>>,
}

impl View for Source {
    type V = SourceView;

    closed spec fn view(&self) -> SourceView {
        SourceView {
            file_path: self.file_path@,
            text: self.text@,
            lines: self.lines@.map_values(|l: String| l@),
        }
    }
}

impl Source {
    #[verifier::type_invariant]
    closed spec fn wf(&self) -> bool {
        &&& self.lines@.map_values(|l: String| l@) == lines_of(self.text@)
        &&& self.line_count == self.lines@.len()
    }

    /// A source holding `text` as it is given.
    pub fn new(text: String, file_path: String) -> (s: Self)
        ensures
            s@.text == text@,
            s@.file_path == file_path@,
            s@.lines == lines_of(text@),
    {
        let chars = chars_of(text.as_str());
        let lines = split_lines(&chars);
        let line_count = lines.len();
        Source { file_path, text, lines, line_count }
    }

    /// A source with tabs in `text` expanded to four spaces.
    pub fn with_tabs_expanded(text: String, file_path: String) -> (s: Self)
        ensures
            s@.text == expand_tabs(text@),
            s@.file_path == file_path@,
            s@.lines == lines_of(expand_tabs(text@)),
    {
        let raw = chars_of(text.as_str());
        let mut clean: Vec<char> = Vec::new();
        let mut i: usize = 0;
        while i < raw.len()
            invariant
                i <= raw@.len(),
                raw@ == text@,
                clean@ == expand_tabs(raw@.take(i as int)),
            decreases raw@.len() - i,
        {
            let c = raw[i];
            proof {
                assert(raw@.take(i + 1).drop_last() =~= raw@.take(i as int));
            }
            if c == '\t' {
                clean.push(' ');
                clean.push(' ');
                clean.push(' ');
                clean.push(' ');
                proof {
                    assert(clean@ =~= expand_tabs(raw@.take(i as int)) + seq![' ', ' ', ' ', ' ']);
                }
            } else {
                clean.push(c);
            }
            i = i + 1;
        }
        proof {
            assert(raw@.take(raw@.len() as int) =~= raw@);
        }
        let text_string = string_from_chars(&clean, 0, clean.len());
        proof {
            assert(clean@.subrange(0, clean@.len() as int) =~= clean@);
        }
        let lines = split_lines(&clean);
        let line_count = lines.len();
        Source { file_path, text: text_string, lines, line_count }
    }

    /// A source with no file path, holding `text` as it is given.
    pub fn from_text(text: &str) -> (s: Self)
        ensures
            s@.text == text@,
            s@.file_path == Seq::<char>::empty(),
    {
        Source::new(text.to_owned(), String::new())
    }

    pub fn text(&self) -> (t: &str)
        ensures
            t@ == self@.text,
    {
        self.text.as_str()
    }

    pub fn file_path(&self) -> (p: &str)
        ensures
            p@ == self@.file_path,
    {
        self.file_path.as_str()
    }

    pub fn line_count(&self) -> (n: usize)
        ensures
            n == self@.lines.len(),
    {
        proof {
            use_type_invariant(self);
        }
        self.line_count
    }

    pub fn lines(&self) -> (ls: &[String])
        ensures
            ls@.map_values(|l: String| l@) == self@.lines,
            self@.lines == lines_of(self@.text),
    {
        proof {
            use_type_invariant(self);
        }
        self.lines.as_slice()
    }

    /// The one-based line `line`.
    pub fn line(&self, line: usize) -> (l: &str)
        requires
            1 <= line <= self@.lines.len(),
        ensures
            l@ == self@.lines[line - 1],
    {
        self.lines[line - 1].as_str()
    }

    /// The end-of-file token: empty, just after the last character.
    pub fn eof_token(&self) -> (t: Token)
        ensures
            t == eof_token_of(self@.text),
    {
        eof_token_of_text(self.text.as_str())
    }

    /// The one-based line and column of character position `index`; past the end, those of
    /// the position just after the text.
    pub fn line_and_column(&self, index: usize) -> (lc: (usize, usize))
        requires
            self@.text.len() < usize::MAX,
        ensures
            (lc.0 as int, lc.1 as int) == line_and_column_from(self@.text, index as int, 0, 1, 1),
            1 <= lc.0,
            1 <= lc.1,
    {
        let chars = chars_of(self.text.as_str());
        let mut line: usize = 1;
        let mut column: usize = 1;
        let mut i: usize = 0;
        while i < chars.len()
            invariant
                chars@ == self@.text,
                chars@.len() < usize::MAX,
                i <= chars@.len(),
                1 <= line,
                1 <= column,
                line + column <= i + 2,
                line_and_column_from(self@.text, index as int, i as int, line as int, column as int)
                    == line_and_column_from(self@.text, index as int, 0, 1, 1),
            decreases chars@.len() - i,
        {
            if i == index {
                return (line, column);
            }
            if chars[i] == '\n' {
                line = line + 1;
                column = 1;
            } else {
                column = column + 1;
            }
            i = i + 1;
        }
        (line, column)
    }
}

/// The lines of `chars`, as `str::lines` splits them.
fn split_lines(chars: &Vec<char>) -> (lines: Vec<String>)
    ensures
        lines@.map_values(|l: String| l@) == lines_of(chars@),
{
    let mut lines: Vec<String> = Vec::new();
    let mut start: usize = 0;
    let mut i: usize = 0;
    let n = chars.len();
    while i < n
        invariant
            n == chars@.len(),
            start <= i <= n,
            next_newline(chars@, start as int) == next_newline(chars@, i as int),
            lines@.map_values(|l: String| l@) + lines_from(chars@, start as int) == lines_of(chars@),
        decreases n - i,
    {
        if chars[i] == '\n' {
            let end = if i > start && chars[i - 1] == '\r' { i - 1 } else { i };
            let line = string_from_chars(chars, start, end);
            proof {
                let old_lines = lines@.map_values(|l: String| l@);
                assert(strip_carriage_return(chars@.subrange(start as int, i as int))
                    =~= chars@.subrange(start as int, end as int));
                assert(lines_from(chars@, start as int) =~= seq![line@] + lines_from(chars@, i + 1));
            }
            let ghost before = lines@.map_values(|l: String| l@);
            lines.push(line);
            proof {
                assert(lines@.map_values(|l: String| l@) =~= before.push(line@));
                assert(before.push(line@) + lines_from(chars@, i + 1) =~= before + (seq![line@] + lines_from(chars@, i + 1)));
            }
            start = i + 1;
        }
        i = i + 1;
    }
    if start < n {
        let line = string_from_chars(chars, start, n);
        let ghost before = lines@.map_values(|l: String| l@);
        proof {
            assert(lines_from(chars@, start as int) =~= seq![line@]);
        }
        lines.push(line);
        proof {
            assert(lines@.map_values(|l: String| l@) =~= before.push(line@));
        }
    } else {
        proof {
            assert(lines@.map_values(|l: String| l@) =~= lines_of(chars@));
        }
    }
    lines
}

/// A source with no file path; the same as `Source::from_text`, whose contract states the result.
impl From<&str> for Source {
    fn from(text: &str) -> (s: Self) {
        Source::from_text(text)
    }
}

/// The result of a conversion is a `Source` value, which no spec expression can build, so the
/// conversion promises nothing here; `Source::from_text` states what it gives.
impl vstd::std_specs::convert::FromSpecImpl<&str> for Source {
    open spec fn obeys_from_spec() -> bool {
        false
    }

    open spec fn from_spec(v: &str) -> Source {
        vstd::pervasive::arbitrary()
    }
}

} // verus!
