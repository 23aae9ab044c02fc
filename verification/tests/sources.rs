use bau::semantic_tokens::{bau_token_to_semantic_token_type, get_semantic_tokens, tokens_legend, SemanticTokenData};
use bau::source::{CodeRange, Source, SourceCoords, Span};
use bau::tokenizer::token::TokenKind;

#[test]
fn tabs_become_four_spaces() {
    let source = Source::with_tabs_expanded("a\tb".to_string(), "f".to_string());
    assert_eq!(source.text(), "a    b");
    assert_eq!(source.file_path(), "f");
    let source = Source::new("fn main() -> int {\n\treturn 1;\n}\n".to_string(), "f".to_string());
    assert_eq!(source.text(), "fn main() -> int {\n\treturn 1;\n}\n");
    assert_eq!(source.lines(), &["fn main() -> int {".to_string(), "\treturn 1;".to_string(), "}".to_string()][..]);
}

#[test]
fn lines_as_str_lines_gives_them() {
    let source = Source::new("one\r\ntwo\n\nfour\n".to_string(), String::new());
    assert_eq!(source.line_count(), 4);
    assert_eq!(source.lines(), &["one".to_string(), "two".to_string(), String::new(), "four".to_string()][..]);
    assert_eq!(source.line(2), "two");
}

#[test]
fn line_and_column_are_one_based() {
    let source = Source::from_text("ab\ncd");
    assert_eq!(source.line_and_column(0), (1, 1));
    assert_eq!(source.line_and_column(1), (1, 2));
    assert_eq!(source.line_and_column(3), (2, 1));
    assert_eq!(source.line_and_column(4), (2, 2));
    assert_eq!(source.line_and_column(99), (2, 3));
}

#[test]
fn the_end_of_file_token_is_at_the_end() {
    let source = Source::from_text("ab\ncd");
    let eof = source.eof_token();
    assert_eq!(eof.kind, TokenKind::EndOfFile);
    assert_eq!(eof.range.span, Span::new(5, 5));
    assert_eq!(eof.range.coords, SourceCoords::new(1, 2));
}

#[test]
fn ranges_join() {
    let a = CodeRange::new(Span::new(2, 4), SourceCoords::new(0, 2));
    let b = CodeRange::new(Span::new(7, 9), SourceCoords::new(1, 0));
    let joined = CodeRange::from_ranges(a, b);
    assert_eq!(joined.span, Span::new(2, 9));
    assert_eq!(joined.coords, SourceCoords::new(0, 2));
    assert_eq!(joined.span.len(), 7);
}

#[test]
fn the_legend() {
    assert_eq!(
        tokens_legend(),
        vec!["comment", "keyword", "operator", "number", "string", "type", "parameter", "variable"]
    );
}

#[test]
fn semantic_token_types() {
    assert_eq!(bau_token_to_semantic_token_type(TokenKind::Fn), Some(1));
    assert_eq!(bau_token_to_semantic_token_type(TokenKind::PlusEquals), Some(2));
    assert_eq!(bau_token_to_semantic_token_type(TokenKind::BoolLiteral), Some(3));
    assert_eq!(bau_token_to_semantic_token_type(TokenKind::StringLiteral), Some(4));
    assert_eq!(bau_token_to_semantic_token_type(TokenKind::Identifier), Some(7));
    assert_eq!(bau_token_to_semantic_token_type(TokenKind::Semicolon), None);
    assert_eq!(bau_token_to_semantic_token_type(TokenKind::Comment), None);
}

fn data(delta_line: u32, delta_start: u32, length: u32, token_type: u32) -> SemanticTokenData {
    SemanticTokenData { delta_line, delta_start, length, token_type, token_modifiers_bitset: 0 }
}

#[test]
fn semantic_tokens_are_relative() {
    let tokens = get_semantic_tokens("fn main() {\n  return 12;\n}");
    assert_eq!(
        tokens,
        vec![data(0, 0, 2, 1), data(0, 3, 4, 7), data(1, 2, 6, 1), data(0, 7, 2, 3)]
    );
}

#[test]
fn semantic_tokens_decode_to_their_positions() {
    let text = "fn f() -> int {\n    let int x = 1 + 2;\n    return x; // done\n}";
    let data = get_semantic_tokens(text);
    let tokens = bau::tokenizer::Tokenizer::new(text).tokenize();
    let expected: Vec<(usize, usize, usize, u32)> = tokens
        .iter()
        .filter_map(|t| {
            bau_token_to_semantic_token_type(t.kind)
                .map(|ty| (t.range.coords.line, t.range.coords.column, t.range.span.len(), ty))
        })
        .collect();
    let mut line = 0usize;
    let mut column = 0usize;
    let mut decoded = vec![];
    for d in data.iter() {
        line += d.delta_line as usize;
        column = if d.delta_line == 0 { column + d.delta_start as usize } else { d.delta_start as usize };
        decoded.push((line, column, d.length as usize, d.token_type));
    }
    assert_eq!(decoded, expected);
    assert_eq!(decoded.len(), 12);
}

#[test]
fn lines_join_back_into_the_text() {
    let text = "fn a\n\n  b c\nd";
    let source = Source::from_text(text);
    assert_eq!(source.lines().join("\n"), text);
    assert_eq!(source.line_count(), 4);
}

#[test]
fn line_and_column_address_the_character_in_its_line() {
    let text = "ab\n\ncde\nf";
    let source = Source::from_text(text);
    for (i, ch) in text.chars().enumerate() {
        if ch == '\n' {
            continue;
        }
        let (line, column) = source.line_and_column(i);
        assert_eq!(source.line(line).chars().nth(column - 1), Some(ch));
    }
    assert_eq!(source.line_and_column(5), (3, 2));
}
