use bau::tokenizer::rule::{get_unambiguous_token, match_keyword, match_single_char, match_two_chars};
use bau::tokenizer::token::TokenKind;
use bau::tokenizer::Tokenizer;

fn kinds(text: &str) -> Vec<TokenKind> {
    Tokenizer::new(text).tokenize().iter().map(|t| t.kind).collect()
}

#[test]
fn tokenizes_a_let_statement() {
    assert_eq!(
        kinds("let int x = 42;"),
        vec![
            TokenKind::Let,
            TokenKind::Whitespace,
            TokenKind::Identifier,
            TokenKind::Whitespace,
            TokenKind::Identifier,
            TokenKind::Whitespace,
            TokenKind::Equals,
            TokenKind::Whitespace,
            TokenKind::IntLiteral,
            TokenKind::Semicolon,
            TokenKind::EndOfFile,
        ]
    );
}

#[test]
fn longest_match_wins_and_earlier_rule_breaks_ties() {
    assert_eq!(kinds("function"), vec![TokenKind::Identifier, TokenKind::EndOfFile]);
    assert_eq!(kinds("fn"), vec![TokenKind::Fn, TokenKind::EndOfFile]);
    assert_eq!(kinds("true"), vec![TokenKind::BoolLiteral, TokenKind::EndOfFile]);
    assert_eq!(kinds("1.5"), vec![TokenKind::FloatLiteral, TokenKind::EndOfFile]);
    assert_eq!(kinds("12"), vec![TokenKind::IntLiteral, TokenKind::EndOfFile]);
    assert_eq!(kinds("->"), vec![TokenKind::Arrow, TokenKind::EndOfFile]);
    assert_eq!(kinds("<="), vec![TokenKind::LessThanEquals, TokenKind::EndOfFile]);
    assert_eq!(kinds("\"a b\""), vec![TokenKind::StringLiteral, TokenKind::EndOfFile]);
}

#[test]
fn regex_matches_give_token_lengths() {
    let tokens = Tokenizer::new("12345 abc").tokenize();
    assert_eq!(tokens[0].kind, TokenKind::IntLiteral);
    assert_eq!(tokens[0].range.span.start, 0);
    assert_eq!(tokens[0].range.span.end, 5);
    assert_eq!(tokens[2].kind, TokenKind::Identifier);
    assert_eq!(tokens[2].range.span.start, 6);
    assert_eq!(tokens[2].range.span.end, 9);
}

#[test]
fn lengths_count_characters() {
    let tokens = Tokenizer::new("\"äö\" x").tokenize();
    assert_eq!(tokens[0].kind, TokenKind::StringLiteral);
    assert_eq!(tokens[0].range.span.end, 4);
    assert_eq!(tokens[2].range.span.start, 5);
}

#[test]
fn invalid_characters_run_to_the_next_token() {
    let tokens = Tokenizer::new("#$ x").tokenize();
    assert_eq!(tokens[0].kind, TokenKind::Invalid);
    assert_eq!(tokens[0].range.span.start, 0);
    assert_eq!(tokens[0].range.span.end, 2);
    assert_eq!(tokens[1].kind, TokenKind::Whitespace);
}

#[test]
fn newlines_are_tokens_of_their_own_and_move_coordinates() {
    let tokens = Tokenizer::new("a\n  b").tokenize();
    let k: Vec<TokenKind> = tokens.iter().map(|t| t.kind).collect();
    assert_eq!(
        k,
        vec![
            TokenKind::Identifier,
            TokenKind::EndOfLine,
            TokenKind::Whitespace,
            TokenKind::Identifier,
            TokenKind::EndOfFile
        ]
    );
    assert_eq!(tokens[3].range.coords.line, 1);
    assert_eq!(tokens[3].range.coords.column, 2);
    assert_eq!(tokens[4].range.span.start, 5);
    assert_eq!(tokens[4].range.span.end, 5);
}

#[test]
fn tokens_tile_the_input() {
    let text = "fn main() -> int {\n\treturn 1 + 2; // done\n}";
    let chars: Vec<char> = text.chars().collect();
    let tokens = Tokenizer::new(text).tokenize();
    let mut joined = String::new();
    let mut position = 0;
    for token in tokens.iter() {
        assert_eq!(token.range.span.start, position);
        joined.extend(&chars[token.range.span.start..token.range.span.end]);
        position = token.range.span.end;
    }
    assert_eq!(joined, text);
    assert_eq!(tokens.last().unwrap().kind, TokenKind::EndOfFile);
}

#[test]
fn next_gives_none_after_the_end() {
    let mut tokenizer = Tokenizer::new("x");
    assert_eq!(tokenizer.next().unwrap().kind, TokenKind::Identifier);
    assert_eq!(tokenizer.next().unwrap().kind, TokenKind::EndOfFile);
    assert!(tokenizer.next().is_none());
}

#[test]
fn matchers_on_characters() {
    let input: Vec<char> = "let x".chars().collect();
    assert_eq!(match_single_char(&input, 0, 'l'), Some(1));
    assert_eq!(match_single_char(&input, 0, 'x'), None);
    assert_eq!(match_two_chars(&input, 0, 'l', 'e'), Some(2));
    assert_eq!(match_two_chars(&input, 4, 'x', 'y'), None);
    let keyword: Vec<char> = "let".chars().collect();
    assert_eq!(match_keyword(&input, 0, &keyword), Some(3));
    assert_eq!(match_keyword(&input, 1, &keyword), None);
}

#[test]
fn unambiguous_tokens() {
    assert_eq!(get_unambiguous_token('('), Some(TokenKind::ParenOpen));
    assert_eq!(get_unambiguous_token(';'), Some(TokenKind::Semicolon));
    assert_eq!(get_unambiguous_token('+'), Some(TokenKind::Plus));
    assert_eq!(get_unambiguous_token('-'), None);
    assert_eq!(get_unambiguous_token('a'), None);
}

#[test]
fn kind_names() {
    assert_eq!(TokenKind::Arrow.name(), "->");
    assert_eq!(TokenKind::IntLiteral.name(), "integer literal");
    assert_eq!(TokenKind::EndOfFile.name(), "end of file");
}

#[test]
fn keywords_are_never_identifiers() {
    assert_eq!(
        kinds("return returns break"),
        vec![
            TokenKind::Return,
            TokenKind::Whitespace,
            TokenKind::Identifier,
            TokenKind::Whitespace,
            TokenKind::Break,
            TokenKind::EndOfFile
        ]
    );
}

#[test]
fn only_the_last_token_is_the_end_of_file() {
    for text in ["", "fn main() -> int { return 1; }", "// a comment", "let x = \"a b\";\n\n"] {
        let ks = kinds(text);
        assert_eq!(ks.last(), Some(&TokenKind::EndOfFile));
        assert_eq!(ks.iter().filter(|k| **k == TokenKind::EndOfFile).count(), 1);
    }
}

#[test]
fn while_is_a_keyword() {
    assert_eq!(kinds("while"), vec![TokenKind::While, TokenKind::EndOfFile]);
    assert_eq!(kinds("whilex"), vec![TokenKind::Identifier, TokenKind::EndOfFile]);
}
