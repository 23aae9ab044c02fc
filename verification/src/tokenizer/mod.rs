//! Splits source text into tokens.
use vstd::prelude::*;

use crate::source::{coords_after, CodeRange, SourceCoords, Span};
use crate::text::chars_of;

pub mod rule;
pub mod token;

use self::rule::{
    apply_rule, default_rules, MatcherView, get_rules, get_unambiguous_token, keyword_rule, rule_match,
    rules_view, unambiguous_kind, Rule, RuleView,
};
use self::token::{kind_name, Token, TokenKind};

verus! {

/// Unicode `White_Space`, as `char::is_whitespace` decides it.
pub open spec fn is_whitespace(c: char) -> bool {
    ||| ('\u{9}' <= c && c <= '\u{d}')
    ||| c == ' '
    ||| c == '\u{85}'
    ||| c == '\u{a0}'
    ||| c == '\u{1680}'
    ||| ('\u{2000}' <= c && c <= '\u{200a}')
    ||| c == '\u{2028}'
    ||| c == '\u{2029}'
    ||| c == '\u{202f}'
    ||| c == '\u{205f}'
    ||| c == '\u{3000}'
}

pub fn char_is_whitespace(c: char) -> (b: bool)
    ensures
        b == is_whitespace(c),
{
    (c >= '\u{9}' && c <= '\u{d}') || c == ' ' || c == '\u{85}' || c == '\u{a0}' || c == '\u{1680}'
        || (c >= '\u{2000}' && c <= '\u{200a}') || c == '\u{2028}' || c == '\u{2029}' || c
        == '\u{202f}' || c == '\u{205f}' || c == '\u{3000}'
}

/// How many characters from `pos` on are whitespace other than a newline.
pub open spec fn whitespace_run(input: Seq<char>, pos: int) -> nat
    decreases input.len() - pos,
{
    if pos < 0 || pos >= input.len() || !(is_whitespace(input[pos]) && input[pos] != '\n') {
        0
    } else {
        1 + whitespace_run(input, pos + 1)
    }
}

/// The longest match among `rules[k..]` at `pos`; of equally long matches, the earliest rule's.
pub open spec fn best_match(rules: Seq<RuleView>, input: Seq<char>, pos: int, k: int) -> Option<
    (nat, TokenKind),
>
    decreases rules.len() - k,
{
    if k < 0 || k >= rules.len() {
        None
    } else {
        let rest = best_match(rules, input, pos, k + 1);
        match rule_match(rules[k], input, pos) {
            None => rest,
            Some(n) => match rest {
                None => Some((n, rules[k].kind)),
                Some((m, _)) => if n >= m {
                    Some((n, rules[k].kind))
                } else {
                    rest
                },
            },
        }
    }
}

/// The length and kind of the token at `pos`, when some rule recognizes one there.
pub open spec fn consume(rules: Seq<RuleView>, input: Seq<char>, pos: int) -> Option<
    (nat, TokenKind),
> {
    if pos < 0 || pos >= input.len() {
        None
    } else {
        let c = input[pos];
        if c == '\n' {
            Some((1, TokenKind::EndOfLine))
        } else if is_whitespace(c) {
            Some((whitespace_run(input, pos), TokenKind::Whitespace))
        } else {
            match unambiguous_kind(c) {
                Some(k) => Some((1, k)),
                None => best_match(rules, input, pos, 0),
            }
        }
    }
}

/// The first position at or after `p` where a token is recognized; the end of the input if none.
pub open spec fn next_consumable(rules: Seq<RuleView>, input: Seq<char>, p: int) -> int
    decreases input.len() - p,
{
    if p < 0 || p >= input.len() {
        input.len() as int
    } else if consume(rules, input, p) is Some {
        p
    } else {
        next_consumable(rules, input, p + 1)
    }
}

/// The length and kind of the token at `pos`: what is recognized there, or else an invalid token
/// that reaches to the next position where something is recognized.
pub open spec fn token_shape(rules: Seq<RuleView>, input: Seq<char>, pos: int) -> (nat, TokenKind) {
    match consume(rules, input, pos) {
        Some(x) => x,
        None => ((next_consumable(rules, input, pos + 1) - pos) as nat, TokenKind::Invalid),
    }
}

pub open spec fn make_token(kind: TokenKind, start: int, len: int, line: int, column: int) -> Token {
    Token {
        kind,
        range: CodeRange {
            span: Span { start: start as usize, end: (start + len) as usize },
            coords: SourceCoords { line: line as usize, column: column as usize },
        },
    }
}

/// The state of a tokenizer: the input, the position, its coordinates, whether the end-of-file
/// token was given out, and the rules.
pub struct TokenizerView {
    pub chars: Seq<char>,
    pub cursor: usize,
    pub line: usize,
    pub column: usize,
    pub eof: bool,
    pub rules: Seq<RuleView>,
}

/// One step: the next token and the state after it.
pub open spec fn step(t: TokenizerView) -> (TokenizerView, Option<Token>) {
    if t.cursor >= t.chars.len() {
        if t.eof {
            (t, None)
        } else {
            (
                TokenizerView { eof: true, ..t },
                Some(make_token(TokenKind::EndOfFile, t.cursor as int, 0, t.line as int, t.column as int)),
            )
        }
    } else {
        let (n, k) = token_shape(t.rules, t.chars, t.cursor as int);
        let (l, c) = coords_after(
            t.chars.subrange(t.cursor as int, t.cursor + n),
            t.line as int,
            t.column as int,
        );
        (
            TokenizerView { cursor: (t.cursor + n) as usize, line: l as usize, column: c as usize, ..t },
            Some(make_token(k, t.cursor as int, n as int, t.line as int, t.column as int)),
        )
    }
}

/// Every token a tokenizer still gives out, the end-of-file token last.
pub open spec fn remaining_tokens(t: TokenizerView) -> Seq<Token>
    decreases t.chars.len() - t.cursor, if t.eof { 0int } else { 1int },
{
    if t.cursor >= t.chars.len() {
        if t.eof {
            Seq::empty()
        } else {
            seq![make_token(TokenKind::EndOfFile, t.cursor as int, 0, t.line as int, t.column as int)]
        }
    } else {
        let (t2, tok) = step(t);
        if t.cursor < t2.cursor <= t.chars.len() && tok is Some {
            seq![tok->0] + remaining_tokens(t2)
        } else {
            Seq::empty()
        }
    }
}

/// A fresh tokenizer over `input`.
pub open spec fn fresh(input: Seq<char>) -> TokenizerView {
    TokenizerView { chars: input, cursor: 0, line: 0, column: 0, eof: false, rules: default_rules() }
}

/// The tokens of `input`.
pub open spec fn tokens_of(input: Seq<char>) -> Seq<Token> {
    remaining_tokens(fresh(input))
}

proof fn lemma_whitespace_run(input: Seq<char>, pos: int)
    requires
        0 <= pos <= input.len(),
    ensures
        pos + whitespace_run(input, pos) <= input.len(),
        pos < input.len() && is_whitespace(input[pos]) && input[pos] != '\n' ==> whitespace_run(
            input,
            pos,
        ) >= 1,
    decreases input.len() - pos,
{
    if pos < input.len() && is_whitespace(input[pos]) && input[pos] != '\n' {
        lemma_whitespace_run(input, pos + 1);
    }
}

proof fn lemma_best_match(rules: Seq<RuleView>, input: Seq<char>, pos: int, k: int)
    requires
        0 <= pos <= input.len(),
    ensures
        best_match(rules, input, pos, k) matches Some((n, _)) ==> 1 <= n && pos + n <= input.len(),
    decreases rules.len() - k,
{
    if 0 <= k < rules.len() {
        lemma_best_match(rules, input, pos, k + 1);
    }
}

proof fn lemma_next_consumable(rules: Seq<RuleView>, input: Seq<char>, p: int)
    requires
        0 <= p <= input.len(),
    ensures
        p <= next_consumable(rules, input, p) <= input.len(),
    decreases input.len() - p,
{
    if p < input.len() && consume(rules, input, p) is None {
        lemma_next_consumable(rules, input, p + 1);
    }
}

/// A token is at least one character long and ends within the input.
pub proof fn lemma_token_shape(rules: Seq<RuleView>, input: Seq<char>, pos: int)
    requires
        0 <= pos < input.len(),
    ensures
        1 <= token_shape(rules, input, pos).0,
        pos + token_shape(rules, input, pos).0 <= input.len(),
{
    lemma_whitespace_run(input, pos);
    lemma_best_match(rules, input, pos, 0);
    lemma_next_consumable(rules, input, pos + 1);
}

/// Walking over characters raises line plus column by at most their number.
pub proof fn lemma_coords_after(s: Seq<char>, line: int, column: int)
    requires
        0 <= line,
        0 <= column,
    ensures
        0 <= coords_after(s, line, column).0,
        0 <= coords_after(s, line, column).1,
        coords_after(s, line, column).0 + coords_after(s, line, column).1 <= line + column + s.len(),
        line <= coords_after(s, line, column).0,
        coords_after(s, line, column).0 == line ==> coords_after(s, line, column).1 == column + s.len(),
    decreases s.len(),
{
    if s.len() > 0 {
        lemma_coords_after(s.drop_last(), line, column);
    }
}

/// Every token still to come lies between the cursor and the end of the input, and there is at
/// most one more of them than characters left.
pub proof fn lemma_remaining_tokens(t: TokenizerView)
    requires
        t.cursor <= t.chars.len(),
    ensures
        remaining_tokens(t).len() <= t.chars.len() - t.cursor + 1,
        forall|i: int|
            0 <= i < remaining_tokens(t).len() ==> t.cursor <= #[trigger] remaining_tokens(
                t,
            )[i].range.span.start <= remaining_tokens(t)[i].range.span.end <= t.chars.len(),
    decreases t.chars.len() - t.cursor, if t.eof { 0int } else { 1int },
{
    if t.cursor < t.chars.len() {
        let (t2, tok) = step(t);
        lemma_token_shape(t.rules, t.chars, t.cursor as int);
        if t.cursor < t2.cursor <= t.chars.len() && tok is Some {
            lemma_remaining_tokens(t2);
            let r = remaining_tokens(t);
            let r2 = remaining_tokens(t2);
            assert(r == seq![tok->0] + r2);
            assert forall|i: int| 0 <= i < r.len() implies t.cursor <= #[trigger] r[i].range.span.start
                <= r[i].range.span.end <= t.chars.len() by {
                if i > 0 {
                    assert(r[i] == r2[i - 1]);
                }
            }
        }
    }
}

/// The tokens of `input` lie within it, and there is at most one more of them than characters.
pub proof fn lemma_tokens_in_text(input: Seq<char>)
    ensures
        tokens_of(input).len() <= input.len() + 1,
        forall|i: int|
            0 <= i < tokens_of(input).len() ==> #[trigger] tokens_of(input)[i].range.span.start
                <= tokens_of(input)[i].range.span.end <= input.len(),
{
    lemma_remaining_tokens(fresh(input));
}

/// The coordinates of a token.
pub open spec fn coords_of(t: Token) -> (int, int) {
    (t.range.coords.line as int, t.range.coords.column as int)
}

/// Whether coordinates `a` come no later than `b`: on an earlier line, or on the same line at
/// no later column.
pub open spec fn coords_le(a: (int, int), b: (int, int)) -> bool {
    a.0 < b.0 || (a.0 == b.0 && a.1 <= b.1)
}

/// Tokens tile the input: the first starts at the cursor with the tokenizer's coordinates;
/// each token but the last is non-empty, and the next one starts where it ends, at the
/// coordinates reached after its text; every token lies within the input with line plus column
/// at most its start; and the end-of-file token, last, is empty and at the end of the input.
#[verifier::rlimit(30)]
pub proof fn lemma_tokens_tile(t: TokenizerView)
    requires
        t.cursor <= t.chars.len() <= usize::MAX,
        t.line + t.column <= t.cursor,
    ensures
        remaining_tokens(t).len() > 0 ==> remaining_tokens(t)[0].range.span.start == t.cursor
            && coords_of(remaining_tokens(t)[0]) == (t.line as int, t.column as int),
        forall|i: int|
            #![trigger remaining_tokens(t)[i]]
            0 <= i < remaining_tokens(t).len() ==> token_placed(t.chars, remaining_tokens(t)[i]),
        forall|i: int|
            #![trigger remaining_tokens(t)[i]]
            0 <= i < remaining_tokens(t).len() - 1 ==> tokens_adjacent(
                t.chars,
                remaining_tokens(t)[i],
                remaining_tokens(t)[i + 1],
            ),
        !t.eof ==> remaining_tokens(t).len() > 0 && remaining_tokens(t).last().kind
            == TokenKind::EndOfFile && remaining_tokens(t).last().range.span.start == t.chars.len()
            && remaining_tokens(t).last().range.span.end == t.chars.len(),
    decreases t.chars.len() - t.cursor, if t.eof { 0int } else { 1int },
{
    if t.cursor < t.chars.len() {
        let (t2, tok) = step(t);
        lemma_token_shape(t.rules, t.chars, t.cursor as int);
        let (n, k) = token_shape(t.rules, t.chars, t.cursor as int);
        let s = t.chars.subrange(t.cursor as int, t.cursor + n);
        lemma_coords_after(s, t.line as int, t.column as int);
        assert(t2.cursor == t.cursor + n);
        lemma_tokens_tile(t2);
        let ts = remaining_tokens(t);
        let ts2 = remaining_tokens(t2);
        assert(ts == seq![tok->0] + ts2);
        assert forall|i: int| #![trigger ts[i]] 0 <= i < ts.len() implies token_placed(t.chars, ts[i]) by {
            if i > 0 {
                assert(ts[i] == ts2[i - 1]);
            }
        }
        assert forall|i: int| #![trigger ts[i]] 0 <= i < ts.len() - 1 implies tokens_adjacent(
            t.chars,
            ts[i],
            ts[i + 1],
        ) by {
            if i > 0 {
                assert(ts[i] == ts2[i - 1]);
                assert(ts[i + 1] == ts2[i]);
            } else {
                assert(ts[1] == ts2[0]);
            }
        }
        if !t.eof {
            assert(ts.last() == ts2.last());
        }
    }
}

/// A token lies within the input, and its line plus column is at most its start.
pub open spec fn token_placed(chars: Seq<char>, a: Token) -> bool {
    &&& a.range.span.start <= a.range.span.end <= chars.len()
    &&& a.range.coords.line + a.range.coords.column <= a.range.span.start
}

/// Token `a` is non-empty, and `b` starts where it ends, at the coordinates reached after its
/// text.
pub open spec fn tokens_adjacent(chars: Seq<char>, a: Token, b: Token) -> bool {
    &&& a.range.span.start < a.range.span.end
    &&& b.range.span.start == a.range.span.end
    &&& coords_of(b) == coords_after(
        chars.subrange(a.range.span.start as int, a.range.span.end as int),
        a.range.coords.line as int,
        a.range.coords.column as int,
    )
}

/// Along the tokens, coordinates never go back.
#[verifier::rlimit(30)]
pub proof fn lemma_coords_ordered(t: TokenizerView, i: int, j: int)
    requires
        t.cursor <= t.chars.len() <= usize::MAX,
        t.line + t.column <= t.cursor,
        0 <= i <= j < remaining_tokens(t).len(),
    ensures
        coords_le(coords_of(remaining_tokens(t)[i]), coords_of(remaining_tokens(t)[j])),
    decreases j - i,
{
    let ts = remaining_tokens(t);
    lemma_tokens_tile(t);
    if i < j {
        lemma_coords_ordered(t, i, j - 1);
        let a = ts[j - 1];
        assert(tokens_adjacent(t.chars, ts[j - 1], ts[j]));
        lemma_coords_after(
            t.chars.subrange(a.range.span.start as int, a.range.span.end as int),
            a.range.coords.line as int,
            a.range.coords.column as int,
        );
    }
}

/// The texts of the tokens from index `i` on, joined.
pub open spec fn texts_from(chars: Seq<char>, ts: Seq<Token>, i: int) -> Seq<char>
    decreases ts.len() - i,
{
    if i < 0 || i >= ts.len() {
        Seq::empty()
    } else {
        chars.subrange(ts[i].range.span.start as int, ts[i].range.span.end as int) + texts_from(
            chars,
            ts,
            i + 1,
        )
    }
}

proof fn lemma_texts_shift(chars: Seq<char>, a: Token, s: Seq<Token>, i: int)
    requires
        0 <= i,
    ensures
        texts_from(chars, seq![a] + s, i + 1) == texts_from(chars, s, i),
    decreases s.len() - i,
{
    if i < s.len() {
        assert((seq![a] + s)[i + 1] == s[i]);
        lemma_texts_shift(chars, a, s, i + 1);
    }
}

/// Nothing is lost or added: the texts of the tokens still to come, joined, are the input from
/// the cursor on.
#[verifier::rlimit(30)]
pub proof fn lemma_remaining_texts(t: TokenizerView)
    requires
        t.cursor <= t.chars.len() <= usize::MAX,
        t.line + t.column <= t.cursor,
    ensures
        texts_from(t.chars, remaining_tokens(t), 0) == t.chars.subrange(t.cursor as int, t.chars.len() as int),
    decreases t.chars.len() - t.cursor, if t.eof { 0int } else { 1int },
{
    let ts = remaining_tokens(t);
    if t.cursor >= t.chars.len() {
        if !t.eof {
            assert(texts_from(t.chars, ts, 1) =~= Seq::<char>::empty());
        }
        assert(texts_from(t.chars, ts, 0) =~= t.chars.subrange(t.cursor as int, t.chars.len() as int));
    } else {
        let (t2, tok) = step(t);
        lemma_token_shape(t.rules, t.chars, t.cursor as int);
        let (n, k) = token_shape(t.rules, t.chars, t.cursor as int);
        lemma_coords_after(t.chars.subrange(t.cursor as int, t.cursor + n), t.line as int, t.column as int);
        assert(t2.cursor == t.cursor + n);
        lemma_remaining_texts(t2);
        let ts2 = remaining_tokens(t2);
        assert(ts == seq![tok->0] + ts2);
        lemma_texts_shift(t.chars, tok->0, ts2, 0);
        assert(t.chars.subrange(t.cursor as int, t.cursor + n) + t.chars.subrange(t2.cursor as int, t.chars.len() as int)
            =~= t.chars.subrange(t.cursor as int, t.chars.len() as int));
    }
}

/// The tokens of an input tile it: joined, their texts are the input.
pub proof fn law_tokens_cover(input: Seq<char>)
    requires
        input.len() <= usize::MAX,
    ensures
        texts_from(input, tokens_of(input), 0) == input,
{
    lemma_remaining_texts(fresh(input));
    assert(input.subrange(0, input.len() as int) =~= input);
}

/// Of the rules from `k` on, `best_match` picks a longest match, and of equally long ones the
/// earliest: a rule `j` that matches is no longer than the pick, and if as long, the pick comes
/// from a rule no later than `j`.
pub proof fn lemma_best_match_earliest(rules: Seq<RuleView>, input: Seq<char>, pos: int, k: int, j: int)
    requires
        0 <= k <= j < rules.len(),
        rule_match(rules[j], input, pos) is Some,
    ensures
        best_match(rules, input, pos, k) is Some,
        rule_match(rules[j], input, pos)->Some_0 <= best_match(rules, input, pos, k)->Some_0.0,
        rule_match(rules[j], input, pos)->Some_0 == best_match(rules, input, pos, k)->Some_0.0 ==> exists|r: int|
            k <= r <= j && rules[r].kind == best_match(rules, input, pos, k)->Some_0.1,
    decreases j - k,
{
    if k < j {
        lemma_best_match_earliest(rules, input, pos, k + 1, j);
        let rest = best_match(rules, input, pos, k + 1);
        let m = rule_match(rules[j], input, pos)->Some_0;
        if rest->Some_0.0 == m {
            let r = choose|r: int| k + 1 <= r <= j && rules[r].kind == rest->Some_0.1;
            if let Some(n) = rule_match(rules[k], input, pos) {
                if n >= rest->Some_0.0 {
                    assert(rules[k].kind == best_match(rules, input, pos, k)->Some_0.1);
                }
            }
        }
    }
}

/// The kind and length of each token but the end-of-file token are those `token_shape` gives
/// at its start.
#[verifier::rlimit(30)]
pub proof fn lemma_token_shapes(t: TokenizerView)
    requires
        t.cursor <= t.chars.len() <= usize::MAX,
        t.line + t.column <= t.cursor,
    ensures
        forall|i: int|
            #![trigger remaining_tokens(t)[i]]
            0 <= i < remaining_tokens(t).len() && remaining_tokens(t)[i].range.span.start < t.chars.len()
                ==> token_shape(t.rules, t.chars, remaining_tokens(t)[i].range.span.start as int) == (
                (remaining_tokens(t)[i].range.span.end - remaining_tokens(t)[i].range.span.start) as nat,
                remaining_tokens(t)[i].kind,
            ),
    decreases t.chars.len() - t.cursor, if t.eof { 0int } else { 1int },
{
    if t.cursor < t.chars.len() {
        let (t2, tok) = step(t);
        lemma_token_shape(t.rules, t.chars, t.cursor as int);
        let (n, k) = token_shape(t.rules, t.chars, t.cursor as int);
        lemma_coords_after(t.chars.subrange(t.cursor as int, t.cursor + n), t.line as int, t.column as int);
        assert(t2.cursor == t.cursor + n);
        lemma_token_shapes(t2);
        let ts = remaining_tokens(t);
        let ts2 = remaining_tokens(t2);
        assert(ts == seq![tok->0] + ts2);
        assert forall|i: int|
            #![trigger ts[i]]
            0 <= i < ts.len() && ts[i].range.span.start < t.chars.len() implies token_shape(
                t.rules,
                t.chars,
                ts[i].range.span.start as int,
            ) == ((ts[i].range.span.end - ts[i].range.span.start) as nat, ts[i].kind) by {
            if i > 0 {
                assert(ts[i] == ts2[i - 1]);
            }
        }
    }
}

/// No default rule reads an end-of-file token.
#[verifier::rlimit(30)]
proof fn lemma_default_rules_not_eof()
    ensures
        forall|r: int| 0 <= r < default_rules().len() ==> #[trigger] default_rules()[r].kind != TokenKind::EndOfFile,
{
    let rules = default_rules();
    assert(rules.len() == 29);
    assert forall|r: int| 0 <= r < rules.len() implies #[trigger] rules[r].kind != TokenKind::EndOfFile by {}
}

proof fn lemma_best_match_not_eof(rules: Seq<RuleView>, input: Seq<char>, pos: int, k: int)
    requires
        forall|r: int| 0 <= r < rules.len() ==> #[trigger] rules[r].kind != TokenKind::EndOfFile,
    ensures
        best_match(rules, input, pos, k) matches Some((_, kind)) ==> kind != TokenKind::EndOfFile,
    decreases rules.len() - k,
{
    if 0 <= k < rules.len() {
        lemma_best_match_not_eof(rules, input, pos, k + 1);
    }
}

/// Within the input, the default rules never give an end-of-file token.
proof fn lemma_shape_not_eof(input: Seq<char>, pos: int)
    requires
        0 <= pos < input.len(),
    ensures
        token_shape(default_rules(), input, pos).1 != TokenKind::EndOfFile,
{
    lemma_default_rules_not_eof();
    lemma_best_match_not_eof(default_rules(), input, pos, 0);
}

proof fn lemma_eof_only_last(t: TokenizerView)
    requires
        t.cursor <= t.chars.len() <= usize::MAX,
        !t.eof,
        t.rules == default_rules(),
    ensures
        remaining_tokens(t).len() > 0,
        remaining_tokens(t).last().kind == TokenKind::EndOfFile,
        forall|i: int|
            0 <= i < remaining_tokens(t).len() - 1 ==> #[trigger] remaining_tokens(t)[i].kind
                != TokenKind::EndOfFile,
    decreases t.chars.len() - t.cursor,
{
    if t.cursor < t.chars.len() {
        let (t2, tok) = step(t);
        lemma_token_shape(t.rules, t.chars, t.cursor as int);
        lemma_shape_not_eof(t.chars, t.cursor as int);
        lemma_eof_only_last(t2);
        let ts = remaining_tokens(t);
        let ts2 = remaining_tokens(t2);
        assert(ts == seq![tok->0] + ts2);
        assert forall|i: int| 0 <= i < ts.len() - 1 implies #[trigger] ts[i].kind != TokenKind::EndOfFile by {
            if i > 0 {
                assert(ts[i] == ts2[i - 1]);
            }
        }
    }
}

/// The tokens of a text end with the end-of-file token, and no other token is one.
pub proof fn law_end_of_file_only_last(input: Seq<char>)
    requires
        input.len() <= usize::MAX,
    ensures
        tokens_of(input).len() > 0,
        tokens_of(input).last().kind == TokenKind::EndOfFile,
        forall|i: int|
            0 <= i < tokens_of(input).len() - 1 ==> #[trigger] tokens_of(input)[i].kind != TokenKind::EndOfFile,
{
    lemma_eof_only_last(fresh(input));
}

/// The rule that reads identifiers is the last of the default rules, and the one rule that
/// gives identifiers: it looks for a letter or `_`, followed by any letters, `_` and digits.
#[verifier::rlimit(30)]
pub proof fn law_identifier_rule()
    ensures
        default_rules().len() == 29,
        default_rules()[28] == rule::pattern_rule(TokenKind::Identifier, "^([A-Za-z]|_)([A-Za-z]|_|\\d)*"@),
        forall|r: int| 0 <= r < 28 ==> #[trigger] default_rules()[r].kind != TokenKind::Identifier,
{
    let rules = default_rules();
    assert forall|r: int| 0 <= r < 28 implies #[trigger] rules[r].kind != TokenKind::Identifier by {}
}

/// Whether the tokens of `w` are one token of the given kind spanning all of `w`, then the end
/// of the file.
pub open spec fn one_token(w: Seq<char>, kind: TokenKind) -> bool {
    &&& tokens_of(w).len() == 2
    &&& tokens_of(w)[0].kind == kind
    &&& tokens_of(w)[0].range.span.start == 0
    &&& tokens_of(w)[0].range.span.end == w.len()
    &&& tokens_of(w)[1].kind == TokenKind::EndOfFile
}

proof fn lemma_one_token(w: Seq<char>, kind: TokenKind)
    requires
        0 < w.len() < usize::MAX,
        consume(default_rules(), w, 0) == Some((w.len(), kind)),
    ensures
        one_token(w, kind),
{
    let t = fresh(w);
    let (t2, tok) = step(t);
    assert(t2.cursor == w.len());
    assert(tokens_of(w) == seq![tok->0] + remaining_tokens(t2));
}

proof fn lemma_best_match_at(rules: Seq<RuleView>, w: Seq<char>, k: int, j: int)
    requires
        0 <= k <= j < rules.len(),
        rule_match(rules[j], w, 0) == Some(w.len()),
        forall|i: int| k <= i < j ==> (#[trigger] rule_match(rules[i], w, 0) matches Some(n) ==> n < w.len()),
    ensures
        best_match(rules, w, 0, k) == Some((w.len(), rules[j].kind)),
    decreases j - k,
{
    lemma_best_match(rules, w, 0, j + 1);
    if k < j {
        lemma_best_match_at(rules, w, k + 1, j);
    }
}

/// Where the default rule `j` reads all of a text that starts with no whitespace and no
/// character that is a token by itself, and no earlier rule reads all of it, the text is one
/// token of that rule's kind.
#[verifier::rlimit(50)]
proof fn lemma_rule_reads_all(w: Seq<char>, j: int)
    requires
        0 < w.len() < usize::MAX,
        0 <= j < 29,
        w[0] != '\n',
        !is_whitespace(w[0]),
        unambiguous_kind(w[0]) is None,
        rule_match(default_rules()[j], w, 0) == Some(w.len()),
        forall|i: int| 0 <= i < j ==> (#[trigger] rule_match(default_rules()[i], w, 0) matches Some(n) ==> n < w.len()),
    ensures
        one_token(w, default_rules()[j].kind),
{
    lemma_default_rules_not_eof();
    lemma_best_match_at(default_rules(), w, 0, j);
    lemma_one_token(w, default_rules()[j].kind);
}

/// Every operator and punctuation mark, written alone, is read as one token of its kind: the
/// longer of two operators that share a first character wins (`<=`, not `<` then `=`), and `//`
/// starts a comment.
#[verifier::rlimit(100)]
pub proof fn law_operator_tokens()
    ensures
        one_token(seq!['=', '='], TokenKind::EqualsEquals),
        one_token(seq!['!', '='], TokenKind::ExclamationMarkEquals),
        one_token(seq!['&', '&'], TokenKind::AmpersandAmpersand),
        one_token(seq!['|', '|'], TokenKind::PipePipe),
        one_token(seq!['<', '='], TokenKind::LessThanEquals),
        one_token(seq!['>', '='], TokenKind::GreaterThanEquals),
        one_token(seq!['-', '>'], TokenKind::Arrow),
        one_token(seq!['/', '/'], TokenKind::Comment),
        one_token(seq!['-'], TokenKind::Minus),
        one_token(seq!['!'], TokenKind::ExclamationMark),
        one_token(seq!['='], TokenKind::Equals),
        one_token(seq!['<'], TokenKind::LessThan),
        one_token(seq!['>'], TokenKind::GreaterThan),
        one_token(seq!['%'], TokenKind::Percent),
        one_token(seq!['('], TokenKind::ParenOpen),
        one_token(seq![')'], TokenKind::ParenClose),
        one_token(seq!['{'], TokenKind::BraceOpen),
        one_token(seq!['}'], TokenKind::BraceClose),
        one_token(seq!['['], TokenKind::SquareOpen),
        one_token(seq![']'], TokenKind::SquareClose),
        one_token(seq![';'], TokenKind::Semicolon),
        one_token(seq!['.'], TokenKind::Period),
        one_token(seq![','], TokenKind::Comma),
        one_token(seq!['+'], TokenKind::Plus),
        one_token(seq!['*'], TokenKind::Asterisk),
{
    let rules = default_rules();
    assert(rules.len() == 29);
    lemma_rule_reads_all(seq!['=', '='], 7);
    lemma_rule_reads_all(seq!['!', '='], 8);
    lemma_rule_reads_all(seq!['&', '&'], 9);
    lemma_rule_reads_all(seq!['|', '|'], 10);
    lemma_rule_reads_all(seq!['<', '='], 11);
    lemma_rule_reads_all(seq!['>', '='], 12);
    lemma_rule_reads_all(seq!['-', '>'], 13);
    lemma_rule_reads_all(seq!['/', '/'], 6);
    lemma_rule_reads_all(seq!['-'], 0);
    lemma_rule_reads_all(seq!['!'], 1);
    lemma_rule_reads_all(seq!['='], 2);
    lemma_rule_reads_all(seq!['<'], 3);
    lemma_rule_reads_all(seq!['>'], 4);
    lemma_rule_reads_all(seq!['%'], 5);
    lemma_one_token(seq!['('], TokenKind::ParenOpen);
    lemma_one_token(seq![')'], TokenKind::ParenClose);
    lemma_one_token(seq!['{'], TokenKind::BraceOpen);
    lemma_one_token(seq!['}'], TokenKind::BraceClose);
    lemma_one_token(seq!['['], TokenKind::SquareOpen);
    lemma_one_token(seq![']'], TokenKind::SquareClose);
    lemma_one_token(seq![';'], TokenKind::Semicolon);
    lemma_one_token(seq!['.'], TokenKind::Period);
    lemma_one_token(seq![','], TokenKind::Comma);
    lemma_one_token(seq!['+'], TokenKind::Plus);
    lemma_one_token(seq!['*'], TokenKind::Asterisk);
}

/// Every keyword, written alone, is read as one keyword token, not as an identifier.
#[verifier::rlimit(100)]
pub proof fn law_keyword_tokens()
    ensures
        one_token("extend"@, TokenKind::Extend),
        one_token("fn"@, TokenKind::Fn),
        one_token("let"@, TokenKind::Let),
        one_token("if"@, TokenKind::If),
        one_token("else"@, TokenKind::Else),
        one_token("loop"@, TokenKind::Loop),
        one_token("return"@, TokenKind::Return),
        one_token("continue"@, TokenKind::Continue),
        one_token("break"@, TokenKind::Break),
        one_token("while"@, TokenKind::While),
{
    reveal_strlit("extend");
    reveal_strlit("fn");
    reveal_strlit("let");
    reveal_strlit("if");
    reveal_strlit("else");
    reveal_strlit("loop");
    reveal_strlit("return");
    reveal_strlit("continue");
    reveal_strlit("break");
    reveal_strlit("while");
    let rules = default_rules();
    assert(rules.len() == 29);
    assert("extend"@.subrange(0, "extend"@.len() as int) =~= "extend"@);
    assert(rule_match(rules[14], "extend"@, 0) == Some("extend"@.len()));
    lemma_rule_reads_all("extend"@, 14);
    assert("fn"@.subrange(0, "fn"@.len() as int) =~= "fn"@);
    assert(rule_match(rules[15], "fn"@, 0) == Some("fn"@.len()));
    lemma_rule_reads_all("fn"@, 15);
    assert("let"@.subrange(0, "let"@.len() as int) =~= "let"@);
    assert(rule_match(rules[16], "let"@, 0) == Some("let"@.len()));
    lemma_rule_reads_all("let"@, 16);
    assert("if"@.subrange(0, "if"@.len() as int) =~= "if"@);
    assert(rule_match(rules[17], "if"@, 0) == Some("if"@.len()));
    lemma_rule_reads_all("if"@, 17);
    assert("else"@.subrange(0, "else"@.len() as int) =~= "else"@);
    assert(rule_match(rules[18], "else"@, 0) == Some("else"@.len()));
    lemma_rule_reads_all("else"@, 18);
    assert("loop"@.subrange(0, "loop"@.len() as int) =~= "loop"@);
    assert(rule_match(rules[19], "loop"@, 0) == Some("loop"@.len()));
    lemma_rule_reads_all("loop"@, 19);
    assert("return"@.subrange(0, "return"@.len() as int) =~= "return"@);
    assert(rule_match(rules[20], "return"@, 0) == Some("return"@.len()));
    lemma_rule_reads_all("return"@, 20);
    assert("continue"@.subrange(0, "continue"@.len() as int) =~= "continue"@);
    assert(rule_match(rules[21], "continue"@, 0) == Some("continue"@.len()));
    lemma_rule_reads_all("continue"@, 21);
    assert("break"@.subrange(0, "break"@.len() as int) =~= "break"@);
    assert(rule_match(rules[22], "break"@, 0) == Some("break"@.len()));
    lemma_rule_reads_all("break"@, 22);
    assert("while"@.subrange(0, "while"@.len() as int) =~= "while"@);
    assert(rule_match(rules[23], "while"@, 0) == Some("while"@.len()));
    lemma_rule_reads_all("while"@, 23);
}

/// The rules that read literals, in the order they are tried after the keywords: strings in
/// double quotes with `\"` and `\\` escapes, integers with an optional sign, decimal
/// floats with an optional fraction and exponent, and the words `true` and `false`.
#[verifier::rlimit(30)]
pub proof fn law_literal_rules()
    ensures
        default_rules()[24] == rule::pattern_rule(
            TokenKind::StringLiteral,
            "^\"((\\\\\"|\\\\\\\\)|[^\\\\\"])*\""@,
        ),
        default_rules()[25] == rule::pattern_rule(TokenKind::IntLiteral, "^[+-]?\\d+"@),
        default_rules()[26] == rule::pattern_rule(
            TokenKind::FloatLiteral,
            "^((\\d+(\\.\\d+)?)|(\\.\\d+))([Ee](\\+|-)?\\d+)?"@,
        ),
        default_rules()[27] == rule::pattern_rule(TokenKind::BoolLiteral, "^\\b(?:true|false)\\b"@),
{
}

proof fn lemma_best_match_last(rules: Seq<RuleView>, w: Seq<char>, k: int)
    requires
        rules.len() == 29,
        0 <= k <= 28,
        rule_match(rules[28], w, 0) == Some(w.len()),
        forall|j: int| k <= j < 28 ==> (#[trigger] rule_match(rules[j], w, 0) matches Some(n) ==> n < w.len()),
    ensures
        best_match(rules, w, 0, k) == Some((w.len(), rules[28].kind)),
    decreases 28 - k,
{
    if k < 28 {
        lemma_best_match_last(rules, w, k + 1);
        assert(best_match(rules, w, 0, k + 1) == Some((w.len(), rules[28].kind)));
    } else {
        assert(best_match(rules, w, 0, 29) is None);
    }
}

/// A word that starts with a letter or `_`, is no keyword, is matched whole by the identifier
/// pattern, and is matched whole by none of the literal patterns, is read as one identifier
/// token spanning the whole word, followed by the end of the file.
#[verifier::rlimit(50)]
pub proof fn law_word_is_one_identifier(w: Seq<char>)
    requires
        0 < w.len() < usize::MAX,
        ('a' <= w[0] && w[0] <= 'z') || ('A' <= w[0] && w[0] <= 'Z') || w[0] == '_',
        forall|k: TokenKind| #[trigger] is_keyword(k) ==> w != kind_name(k),
        rule::regex_compiles("^([A-Za-z]|_)([A-Za-z]|_|\\d)*"@),
        rule::regex_match_end("^([A-Za-z]|_)([A-Za-z]|_|\\d)*"@, w) == Some(w.len()),
        forall|r: int|
            24 <= r < 28 ==> (#[trigger] default_rules()[r].matcher matches MatcherView::Pattern(Some(p))
                ==> rule::regex_match_end(p, w) != Some(w.len())),
    ensures
        tokens_of(w).len() == 2,
        tokens_of(w)[0].kind == TokenKind::Identifier,
        tokens_of(w)[0].range.span.start == 0,
        tokens_of(w)[0].range.span.end == w.len(),
        tokens_of(w)[1].kind == TokenKind::EndOfFile,
{
    let rules = default_rules();
    law_identifier_rule();
    assert(w.subrange(0, w.len() as int) =~= w);
    assert(rule_match(rules[28], w, 0) == Some(w.len()));
    assert forall|j: int| 0 <= j < 28 implies (#[trigger] rule_match(rules[j], w, 0) matches Some(n) ==> n
        < w.len()) by {
        if 14 <= j < 24 {
            let k = rules[j].kind;
            assert(is_keyword(k));
            assert(rules[j] == keyword_rule(k));
        }
    }
    lemma_best_match_last(rules, w, 0);
    assert(!is_whitespace(w[0]));
    assert(unambiguous_kind(w[0]) is None);
    assert(consume(rules, w, 0) == Some((w.len(), TokenKind::Identifier)));
    let t = fresh(w);
    let (t2, tok) = step(t);
    assert(t2.cursor == w.len());
    assert(tokens_of(w) == seq![tok->0] + remaining_tokens(t2));
}

/// Whether a kind is a keyword.
pub open spec fn is_keyword(k: TokenKind) -> bool {
    k == TokenKind::Extend || k == TokenKind::Fn || k == TokenKind::Let || k == TokenKind::If
        || k == TokenKind::Else || k == TokenKind::Loop || k == TokenKind::Return || k
        == TokenKind::Continue || k == TokenKind::Break || k == TokenKind::While
}

/// The index of a keyword's rule among the default rules.
pub open spec fn keyword_index(k: TokenKind) -> int {
    if k == TokenKind::Extend {
        14
    } else if k == TokenKind::Fn {
        15
    } else if k == TokenKind::Let {
        16
    } else if k == TokenKind::If {
        17
    } else if k == TokenKind::Else {
        18
    } else if k == TokenKind::Loop {
        19
    } else if k == TokenKind::Return {
        20
    } else if k == TokenKind::Continue {
        21
    } else if k == TokenKind::Break {
        22
    } else {
        23
    }
}

#[verifier::rlimit(30)]
proof fn lemma_default_rules(k: TokenKind)
    requires
        is_keyword(k),
    ensures
        default_rules().len() == 29,
        default_rules()[keyword_index(k)] == keyword_rule(k),
        forall|r: int| 0 <= r <= 23 ==> #[trigger] default_rules()[r].kind != TokenKind::Identifier,
{
    let rules = default_rules();
    assert forall|r: int| 0 <= r <= 23 implies #[trigger] rules[r].kind != TokenKind::Identifier by {}
}

/// Where the default rules read an identifier, its text is no keyword.
#[verifier::rlimit(30)]
proof fn lemma_identifier_not_keyword(input: Seq<char>, start: int, n: nat, k: TokenKind)
    requires
        0 <= start < input.len(),
        is_keyword(k),
        token_shape(default_rules(), input, start) == (n, TokenKind::Identifier),
    ensures
        input.subrange(start, start + n) != kind_name(k),
{
    let rules = default_rules();
    lemma_default_rules(k);
    lemma_token_shape(rules, input, start);
    if input.subrange(start, start + n) == kind_name(k) {
        assert(consume(rules, input, start) is Some);
        assert(best_match(rules, input, start, 0) == Some((n, TokenKind::Identifier)));
        let j = keyword_index(k);
        assert(rule_match(rules[j], input, start) == Some(n));
        lemma_best_match_earliest(rules, input, start, 0, j);
    }
}

/// A keyword is never read as an identifier: of two matches of one length, the keyword's rule
/// comes first.
#[verifier::rlimit(30)]
pub proof fn law_keywords_are_not_identifiers(input: Seq<char>, i: int, k: TokenKind)
    requires
        input.len() <= usize::MAX,
        0 <= i < tokens_of(input).len(),
        tokens_of(input)[i].kind == TokenKind::Identifier,
        is_keyword(k),
    ensures
        input.subrange(
            tokens_of(input)[i].range.span.start as int,
            tokens_of(input)[i].range.span.end as int,
        ) != kind_name(k),
{
    let ts = tokens_of(input);
    let start = ts[i].range.span.start as int;
    let end = ts[i].range.span.end as int;
    assert(token_placed(input, ts[i])) by {
        lemma_tokens_tile(fresh(input));
    }
    if start < input.len() {
        assert(token_shape(default_rules(), input, start) == ((end - start) as nat, TokenKind::Identifier)) by {
            lemma_token_shapes(fresh(input));
        }
        lemma_identifier_not_keyword(input, start, (end - start) as nat, k);
    } else {
        assert(false) by {
            lemma_tokens_tile(fresh(input));
            if i < ts.len() - 1 {
                assert(tokens_adjacent(input, ts[i], ts[i + 1]));
            }
        }
    }
}

pub struct Tokenizer {
    input: String,
    chars: Vec<char>,
    cursor: usize,
    line: usize,
    column: usize,
    eof: bool,
    rules: Vec<Rule>,
}

impl View for Tokenizer {
    type V = TokenizerView;

    closed spec fn view(&self) -> TokenizerView {
        TokenizerView {
            chars: self.chars@,
            cursor: self.cursor,
            line: self.line,
            column: self.column,
            eof: self.eof,
            rules: rules_view(self.rules@),
        }
    }
}

impl Tokenizer {
    #[verifier::type_invariant]
    closed spec fn wf(&self) -> bool {
        &&& self.input@ == self.chars@
        &&& self.chars@.len() <= usize::MAX
        &&& self.cursor <= self.chars@.len()
        &&& self.line + self.column <= self.cursor
    }

    pub fn new(input: &str) -> (t: Self)
        ensures
            t@ == fresh(input@),
    {
        let chars = chars_of(input);
        assert(chars@.len() == chars.len());
        Tokenizer {
            input: input.to_owned(),
            chars,
            cursor: 0,
            line: 0,
            column: 0,
            eof: false,
            rules: get_rules(),
        }
    }

    fn best_rule_match(&self, pos: usize) -> (r: Option<(usize, TokenKind)>)
        requires
            pos <= self@.chars.len(),
        ensures
            r matches Some((n, k)) ==> best_match(self@.rules, self@.chars, pos as int, 0)
                == Some((n as nat, k)),
            r is None ==> best_match(self@.rules, self@.chars, pos as int, 0) is None,
    {
        proof {
            use_type_invariant(self);
        }
        let mut best: Option<(usize, TokenKind)> = None;
        let mut k = self.rules.len();
        while k > 0
            invariant
                k <= self.rules@.len(),
                pos <= self.chars@.len(),
                self.input@ == self.chars@,
                best matches Some((n, kind)) ==> best_match(self@.rules, self@.chars, pos as int, k as int)
                    == Some((n as nat, kind)),
                best is None ==> best_match(self@.rules, self@.chars, pos as int, k as int) is None,
            decreases k,
        {
            k = k - 1;
            let m = apply_rule(self.input.as_str(), &self.chars, pos, &self.rules[k]);
            assert(self@.rules[k as int] == self.rules@[k as int]@);
            match m {
                Some(n) => {
                    match best {
                        Some((b, _)) => {
                            if n >= b {
                                best = Some((n, self.rules[k].kind));
                            }
                        },
                        None => {
                            best = Some((n, self.rules[k].kind));
                        },
                    }
                },
                None => {},
            }
        }
        best
    }

    fn consume_token(&self, pos: usize) -> (r: Option<(usize, TokenKind)>)
        requires
            pos < self@.chars.len(),
        ensures
            r matches Some((n, k)) ==> consume(self@.rules, self@.chars, pos as int) == Some(
                (n as nat, k),
            ),
            r is None ==> consume(self@.rules, self@.chars, pos as int) is None,
    {
        let next = self.chars[pos];
        if next == '\n' {
            return Some((1, TokenKind::EndOfLine));
        }
        if char_is_whitespace(next) {
            let mut end = pos;
            while end < self.chars.len() && char_is_whitespace(self.chars[end]) && self.chars[end]
                != '\n'
                invariant
                    pos <= end <= self.chars@.len(),
                    whitespace_run(self.chars@, pos as int) == (end - pos) + whitespace_run(
                        self.chars@,
                        end as int,
                    ),
                decreases self.chars@.len() - end,
            {
                end = end + 1;
            }
            return Some((end - pos, TokenKind::Whitespace));
        }
        if let Some(kind) = get_unambiguous_token(next) {
            return Some((1, kind));
        }
        self.best_rule_match(pos)
    }

    /// The length of an invalid token at `pos`: up to the next position where a token is recognized.
    fn invalid_token_len(&self, pos: usize) -> (n: usize)
        requires
            pos < self@.chars.len(),
        ensures
            n == next_consumable(self@.rules, self@.chars, pos + 1) - pos,
    {
        proof {
            use_type_invariant(self);
        }
        let mut p = pos + 1;
        while p < self.chars.len() && self.consume_token(p).is_none()
            invariant
                pos < p <= self@.chars.len(),
                next_consumable(self@.rules, self@.chars, pos + 1) == next_consumable(
                    self@.rules,
                    self@.chars,
                    p as int,
                ),
            decreases self@.chars.len() - p,
        {
            p = p + 1;
        }
        p - pos
    }

    /// The token of `kind` and `len` characters at the cursor; moves past it.
    fn token(&mut self, kind: TokenKind, len: usize) -> (t: Token)
        requires
            old(self)@.cursor + len <= old(self)@.chars.len(),
        ensures
            t == make_token(
                kind,
                old(self)@.cursor as int,
                len as int,
                old(self)@.line as int,
                old(self)@.column as int,
            ),
            ({
                let (l, c) = coords_after(
                    old(self)@.chars.subrange(old(self)@.cursor as int, old(self)@.cursor + len),
                    old(self)@.line as int,
                    old(self)@.column as int,
                );
                final(self)@ == TokenizerView {
                    cursor: (old(self)@.cursor + len) as usize,
                    line: l as usize,
                    column: c as usize,
                    ..old(self)@
                }
            }),
    {
        proof {
            use_type_invariant(&*self);
        }
        let start = self.cursor;
        let token = Token::new(
            kind,
            CodeRange::new(Span::new(start, start + len), SourceCoords::new(self.line, self.column)),
        );
        let ghost line0 = self.line as int;
        let ghost column0 = self.column as int;
        let mut line = self.line;
        let mut column = self.column;
        let mut i = start;
        let end = start + len;
        while i < end
            invariant
                end == start + len,
                start <= i <= start + len <= self.chars@.len(),
                line0 + column0 <= start,
                0 <= line0,
                0 <= column0,
                (line as int, column as int) == coords_after(
                    self.chars@.subrange(start as int, i as int),
                    line0,
                    column0,
                ),
            decreases end - i,
        {
            proof {
                lemma_coords_after(self.chars@.subrange(start as int, i as int), line0, column0);
                assert(self.chars@.subrange(start as int, i + 1).drop_last() =~= self.chars@.subrange(
                    start as int,
                    i as int,
                ));
            }
            if self.chars[i] == '\n' {
                line = line + 1;
                column = 0;
            } else {
                column = column + 1;
            }
            i = i + 1;
        }
        proof {
            lemma_coords_after(self.chars@.subrange(start as int, (start + len) as int), line0, column0);
        }
        self.cursor = start + len;
        self.column = column;
        self.line = line;
        token
    }

    /// The next token; after the end-of-file token, `None`.
    pub fn next(&mut self) -> (t: Option<Token>)
        ensures
            (final(self)@, t) == step(old(self)@),
    {
        proof {
            use_type_invariant(&*self);
        }
        if self.cursor >= self.chars.len() {
            if self.eof {
                return None;
            }
            self.eof = true;
            return Some(self.token(TokenKind::EndOfFile, 0));
        }
        let (len, kind) = match self.consume_token(self.cursor) {
            Some(found) => found,
            None => (self.invalid_token_len(self.cursor), TokenKind::Invalid),
        };
        proof {
            lemma_token_shape(self@.rules, self@.chars, self@.cursor as int);
        }
        Some(self.token(kind, len))
    }

    /// Every token that is left, the end-of-file token last.
    pub fn tokenize(&mut self) -> (tokens: Vec<Token>)
        ensures
            tokens@ == remaining_tokens(old(self)@),
    {
        let mut tokens: Vec<Token> = Vec::new();
        let ghost start = self@;
        loop
            invariant_except_break
                tokens@ + remaining_tokens(self@) == remaining_tokens(start),
            ensures
                tokens@ == remaining_tokens(start),
            decreases self@.chars.len() - self@.cursor, if self@.eof { 0int } else { 1int },
        {
            proof {
                use_type_invariant(&*self);
                if self@.cursor < self@.chars.len() {
                    lemma_token_shape(self@.rules, self@.chars, self@.cursor as int);
                }
            }
            let ghost before = self@;
            match self.next() {
                Some(token) => {
                    proof {
                        if before.cursor < before.chars.len() {
                            assert(remaining_tokens(before) == seq![token] + remaining_tokens(self@));
                        } else {
                            assert(remaining_tokens(self@) =~= Seq::<Token>::empty());
                        }
                    }
                    tokens.push(token);
                    assert(tokens@ + remaining_tokens(self@) =~= remaining_tokens(start));
                },
                None => {
                    assert(remaining_tokens(before) =~= Seq::<Token>::empty());
                    assert(tokens@ =~= remaining_tokens(start));
                    break;
                },
            }
        }
        tokens
    }
}

} // verus!
