//! Semantic tokens for an editor: which tokens to color, with what, and where, in the
//! relative encoding of the Language Server Protocol.
use vstd::prelude::*;

use crate::tokenizer::token::{Token, TokenKind};
use crate::tokenizer::{
    coords_le, coords_of, fresh, lemma_coords_ordered, lemma_tokens_tile, token_placed, tokens_of,
    Tokenizer,
};

verus! {

/// One semantic token: its line and start relative to the token before it (the start only on
/// the same line), its length, and the index of its type in `tokens_legend`.
#[derive(Debug, Clone, Copy, PartialEq, Eq, Structural)]
pub struct SemanticTokenData {
    pub delta_line: u32,
    pub delta_start: u32,
    pub length: u32,
    pub token_type: u32,
    pub token_modifiers_bitset: u32,
}

/// The names of the semantic token types, in the order their indices refer to.
pub fn tokens_legend() -> (names: Vec<&'static str>)
    ensures
        names@.len() == 8,
        names@[0]@ == "comment"@,
        names@[1]@ == "keyword"@,
        names@[2]@ == "operator"@,
        names@[3]@ == "number"@,
        names@[4]@ == "string"@,
        names@[5]@ == "type"@,
        names@[6]@ == "parameter"@,
        names@[7]@ == "variable"@,
{
    let mut names: Vec<&'static str> = Vec::new();
    names.push("comment");
    names.push("keyword");
    names.push("operator");
    names.push("number");
    names.push("string");
    names.push("type");
    names.push("parameter");
    names.push("variable");
    names
}

/// The semantic token type of a token kind: keywords 1, operators 2, numbers and booleans 3,
/// strings 4, identifiers 7; the rest are not colored.
pub open spec fn semantic_type(kind: TokenKind) -> Option<u32> {
    match kind {
        TokenKind::Fn
        | TokenKind::Extend
        | TokenKind::Let
        | TokenKind::If
        | TokenKind::Else
        | TokenKind::Loop
        | TokenKind::Return
        | TokenKind::Continue
        | TokenKind::Break
        | TokenKind::While => Some(1),
        TokenKind::StringLiteral => Some(4),
        TokenKind::IntLiteral | TokenKind::FloatLiteral | TokenKind::BoolLiteral => Some(3),
        TokenKind::Identifier => Some(7),
        TokenKind::Plus
        | TokenKind::Minus
        | TokenKind::Asterisk
        | TokenKind::Slash
        | TokenKind::Percent
        | TokenKind::ExclamationMark
        | TokenKind::LessThan
        | TokenKind::GreaterThan
        | TokenKind::PlusEquals
        | TokenKind::MinusEquals
        | TokenKind::AsteriskEquals
        | TokenKind::SlashEquals
        | TokenKind::PercentEquals
        | TokenKind::EqualsEquals
        | TokenKind::ExclamationMarkEquals
        | TokenKind::LessThanEquals
        | TokenKind::GreaterThanEquals
        | TokenKind::AmpersandAmpersand
        | TokenKind::PipePipe => Some(2),
        _ => None,
    }
}

/// The semantic token type of a token kind.
pub fn bau_token_to_semantic_token_type(bau_token_kind: TokenKind) -> (t: Option<u32>)
    ensures
        t == semantic_type(bau_token_kind),
{
    match bau_token_kind {
        TokenKind::Fn
        | TokenKind::Extend
        | TokenKind::Let
        | TokenKind::If
        | TokenKind::Else
        | TokenKind::Loop
        | TokenKind::Return
        | TokenKind::Continue
        | TokenKind::Break
        | TokenKind::While => Some(1),
        TokenKind::StringLiteral => Some(4),
        TokenKind::IntLiteral | TokenKind::FloatLiteral | TokenKind::BoolLiteral => Some(3),
        TokenKind::Identifier => Some(7),
        TokenKind::Plus
        | TokenKind::Minus
        | TokenKind::Asterisk
        | TokenKind::Slash
        | TokenKind::Percent
        | TokenKind::ExclamationMark
        | TokenKind::LessThan
        | TokenKind::GreaterThan
        | TokenKind::PlusEquals
        | TokenKind::MinusEquals
        | TokenKind::AsteriskEquals
        | TokenKind::SlashEquals
        | TokenKind::PercentEquals
        | TokenKind::EqualsEquals
        | TokenKind::ExclamationMarkEquals
        | TokenKind::LessThanEquals
        | TokenKind::GreaterThanEquals
        | TokenKind::AmpersandAmpersand
        | TokenKind::PipePipe => Some(2),
        _ => None,
    }
}

/// The semantic tokens of the colored tokens from index `i` on, the last colored token before
/// them being at line `prev_line` and column `prev_start`.
pub open spec fn encode(ts: Seq<Token>, i: int, prev_line: int, prev_start: int) -> Seq<SemanticTokenData>
    decreases ts.len() - i,
{
    if i < 0 || i >= ts.len() {
        Seq::empty()
    } else {
        match semantic_type(ts[i].kind) {
            None => encode(ts, i + 1, prev_line, prev_start),
            Some(token_type) => {
                let (line, column) = coords_of(ts[i]);
                let delta_start = if prev_line == line {
                    column - prev_start
                } else {
                    column
                };
                seq![
                    SemanticTokenData {
                        delta_line: (line - prev_line) as u32,
                        delta_start: delta_start as u32,
                        length: (ts[i].range.span.end - ts[i].range.span.start) as u32,
                        token_type,
                        token_modifiers_bitset: 0,
                    },
                ] + encode(ts, i + 1, line, column)
            },
        }
    }
}

/// The semantic tokens of a text.
#[verifier::rlimit(30)]
pub fn get_semantic_tokens(text: &str) -> (data: Vec<SemanticTokenData>)
    requires
        text@.len() < u32::MAX,
    ensures
        data@ == encode(tokens_of(text@), 0, 0, 0),
{
    let mut tokenizer = Tokenizer::new(text);
    let tokens = tokenizer.tokenize();
    let ghost ts = tokens_of(text@);
    proof {
        lemma_tokens_tile(fresh(text@));
    }
    let mut data: Vec<SemanticTokenData> = Vec::new();
    let mut prev_line: u32 = 0;
    let mut prev_start: u32 = 0;
    let mut i: usize = 0;
    while i < tokens.len()
        invariant
            tokens@ == ts,
            ts == tokens_of(text@),
            text@.len() < u32::MAX,
            i <= ts.len(),
            forall|k: int| #![trigger ts[k]] 0 <= k < ts.len() ==> token_placed(text@, ts[k]),
            forall|k: int|
                #![trigger ts[k]]
                i <= k < ts.len() ==> coords_le((prev_line as int, prev_start as int), coords_of(ts[k])),
            encode(ts, 0, 0, 0) == data@ + encode(ts, i as int, prev_line as int, prev_start as int),
        decreases ts.len() - i,
    {
        let token = tokens[i];
        assert(token_placed(text@, ts[i as int]));
        match bau_token_to_semantic_token_type(token.kind) {
            None => {},
            Some(token_type) => {
                let line = token.range.coords.line as u32;
                let column = token.range.coords.column as u32;
                assert(coords_le((prev_line as int, prev_start as int), coords_of(ts[i as int])));
                let delta_line = line - prev_line;
                let delta_start = if prev_line == line {
                    column - prev_start
                } else {
                    column
                };
                let length = (token.range.span.end - token.range.span.start) as u32;
                let ghost before = data@;
                data.push(
                    SemanticTokenData {
                        delta_line,
                        delta_start,
                        length,
                        token_type,
                        token_modifiers_bitset: 0,
                    },
                );
                proof {
                    assert forall|k: int| #![trigger ts[k]] i < k < ts.len() implies coords_le(
                        (line as int, column as int),
                        coords_of(ts[k]),
                    ) by {
                        lemma_coords_ordered(fresh(text@), i as int, k);
                    }
                    assert(data@ + encode(ts, i + 1, line as int, column as int) =~= before + encode(
                        ts,
                        i as int,
                        prev_line as int,
                        prev_start as int,
                    ));
                }
                prev_line = line;
                prev_start = column;
            },
        }
        i = i + 1;
    }
    proof {
        assert(data@ + encode(ts, i as int, prev_line as int, prev_start as int) =~= data@);
    }
    data
}

/// The absolute line, column, length and type of each semantic token, read back from the
/// relative encoding, the token before the first being at `line` and `column`.
pub open spec fn decode(data: Seq<SemanticTokenData>, i: int, line: int, column: int) -> Seq<(int, int, int, u32)>
    decreases data.len() - i,
{
    if i < 0 || i >= data.len() {
        Seq::empty()
    } else {
        let d = data[i];
        let l = line + d.delta_line;
        let c = if d.delta_line == 0 {
            column + d.delta_start
        } else {
            d.delta_start as int
        };
        seq![(l, c, d.length as int, d.token_type)] + decode(data, i + 1, l, c)
    }
}

/// The line, column, length and semantic type of each colored token from index `i` on.
pub open spec fn colored(ts: Seq<Token>, i: int) -> Seq<(int, int, int, u32)>
    decreases ts.len() - i,
{
    if i < 0 || i >= ts.len() {
        Seq::empty()
    } else {
        match semantic_type(ts[i].kind) {
            None => colored(ts, i + 1),
            Some(t) => seq![
                (
                    ts[i].range.coords.line as int,
                    ts[i].range.coords.column as int,
                    ts[i].range.span.end - ts[i].range.span.start,
                    t,
                ),
            ] + colored(ts, i + 1),
        }
    }
}

proof fn lemma_decode_shift(x: SemanticTokenData, s: Seq<SemanticTokenData>, i: int, line: int, column: int)
    requires
        0 <= i,
    ensures
        decode(seq![x] + s, i + 1, line, column) == decode(s, i, line, column),
    decreases s.len() - i,
{
    if i < s.len() {
        assert((seq![x] + s)[i + 1] == s[i]);
        let d = s[i];
        let l = line + d.delta_line;
        let c = if d.delta_line == 0 {
            column + d.delta_start
        } else {
            d.delta_start as int
        };
        lemma_decode_shift(x, s, i + 1, l, c);
    }
}

/// A token whose position and length fit in a `u32`.
pub open spec fn small(t: Token) -> bool {
    t.range.coords.line + t.range.coords.column <= t.range.span.start <= t.range.span.end < u32::MAX
}

#[verifier::rlimit(30)]
proof fn lemma_decode_encode(ts: Seq<Token>, i: int, line: int, column: int)
    requires
        0 <= i <= ts.len(),
        0 <= line,
        0 <= column,
        forall|k: int| #![trigger ts[k]] 0 <= k < ts.len() ==> small(ts[k]),
        forall|j: int, k: int|
            #![trigger ts[j], ts[k]]
            0 <= j <= k < ts.len() ==> coords_le(coords_of(ts[j]), coords_of(ts[k])),
        i < ts.len() ==> coords_le((line, column), coords_of(ts[i])),
    ensures
        decode(encode(ts, i, line, column), 0, line, column) == colored(ts, i),
    decreases ts.len() - i,
{
    if i < ts.len() {
        assert(small(ts[i]));
        if i + 1 < ts.len() {
            assert(coords_le(coords_of(ts[i]), coords_of(ts[i + 1])));
        }
        match semantic_type(ts[i].kind) {
            None => {
                if i + 1 < ts.len() {
                    assert(coords_le((line, column), coords_of(ts[i + 1])));
                }
                lemma_decode_encode(ts, i + 1, line, column);
            },
            Some(t) => {
                let (l, c) = coords_of(ts[i]);
                lemma_decode_encode(ts, i + 1, l, c);
                let rest = encode(ts, i + 1, l, c);
                let x = encode(ts, i, line, column)[0];
                assert(encode(ts, i, line, column) == seq![x] + rest);
                lemma_decode_shift(x, rest, 0, l, c);
            },
        }
    }
}

/// The relative encoding loses nothing: reading the semantic tokens of a text back gives the
/// line, column, length and type of each of its colored tokens, in order.
pub proof fn law_semantic_tokens_decode(text: Seq<char>)
    requires
        text.len() < u32::MAX,
    ensures
        decode(encode(tokens_of(text), 0, 0, 0), 0, 0, 0) == colored(tokens_of(text), 0),
{
    let ts = tokens_of(text);
    lemma_tokens_tile(fresh(text));
    assert forall|k: int| #![trigger ts[k]] 0 <= k < ts.len() implies small(ts[k]) by {
        assert(token_placed(text, ts[k]));
    }
    assert forall|j: int, k: int| #![trigger ts[j], ts[k]] 0 <= j <= k < ts.len() implies coords_le(
        coords_of(ts[j]),
        coords_of(ts[k]),
    ) by {
        lemma_coords_ordered(fresh(text), j, k);
    }
    lemma_decode_encode(ts, 0, 0, 0);
}

/// Every keyword is colored as a keyword (index 1 of the legend), every literal of a number or a
/// boolean as a number (3), a string literal as a string (4), an identifier as a variable (7),
/// an operator as an operator (2), and comments, whitespace, line ends and punctuation not at
/// all.
pub proof fn law_semantic_types(kind: TokenKind)
    ensures
        (kind == TokenKind::Fn || kind == TokenKind::Extend || kind == TokenKind::Let || kind == TokenKind::If
            || kind == TokenKind::Else || kind == TokenKind::Loop || kind == TokenKind::Return || kind
            == TokenKind::Continue || kind == TokenKind::Break || kind == TokenKind::While) ==> semantic_type(
            kind,
        ) == Some(1u32),
        (kind == TokenKind::IntLiteral || kind == TokenKind::FloatLiteral || kind == TokenKind::BoolLiteral)
            ==> semantic_type(kind) == Some(3u32),
        kind == TokenKind::StringLiteral ==> semantic_type(kind) == Some(4u32),
        kind == TokenKind::Identifier ==> semantic_type(kind) == Some(7u32),
        (kind == TokenKind::Plus || kind == TokenKind::Minus || kind == TokenKind::Asterisk || kind
            == TokenKind::Slash || kind == TokenKind::Percent || kind == TokenKind::ExclamationMark || kind
            == TokenKind::LessThan || kind == TokenKind::GreaterThan || kind == TokenKind::EqualsEquals || kind
            == TokenKind::ExclamationMarkEquals || kind == TokenKind::LessThanEquals || kind
            == TokenKind::GreaterThanEquals || kind == TokenKind::AmpersandAmpersand || kind
            == TokenKind::PipePipe) ==> semantic_type(kind) == Some(2u32),
        (kind == TokenKind::Comment || kind == TokenKind::Whitespace || kind == TokenKind::EndOfLine || kind
            == TokenKind::EndOfFile || kind == TokenKind::Invalid || kind == TokenKind::Equals || kind
            == TokenKind::Arrow || kind == TokenKind::ParenOpen || kind == TokenKind::ParenClose || kind
            == TokenKind::BraceOpen || kind == TokenKind::BraceClose || kind == TokenKind::Semicolon || kind
            == TokenKind::Period || kind == TokenKind::Comma) ==> semantic_type(kind) is None,
{
}

} // verus!
