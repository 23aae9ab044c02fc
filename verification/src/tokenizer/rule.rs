//! The rules that recognize tokens which are not single unambiguous characters.
use vstd::prelude::*;

use regex::Regex;

use crate::text::chars_of;
use crate::tokenizer::token::{kind_name, TokenKind};

verus! {

/// `regex::Regex`, held opaque: what a compiled pattern matches is named by `regex_match_end`.
#[verifier::external_type_specification]
#[verifier::external_body]
pub struct ExRegex(Regex);

/// Whether `regex::Regex::new` accepts the pattern.
pub uninterp spec fn regex_compiles(pattern: Seq<char>) -> bool;

/// Where the leftmost-first match of the pattern in the haystack ends, counted in characters
/// from the start of the haystack; `None` when the pattern does not match.
pub uninterp spec fn regex_match_end(pattern: Seq<char>, haystack: Seq<char>) -> Option<nat>;

/// A regular expression together with the pattern it was compiled from.
pub struct TokenPattern {
    source: String,
    compiled: Regex,
}

impl TokenPattern {
    pub closed spec fn source(&self) -> Seq<char> {
        self.source@
    }
}

/// Compiles `source` with `regex::Regex::new`. The claim: the result is `Some` exactly when the
/// crate accepts the pattern, and then it holds the pattern it was compiled from.
#[verifier::external_body]
fn compile_pattern(source: &str) -> (p: Option<TokenPattern>)
    ensures
        p is Some <==> regex_compiles(source@),
        p matches Some(p) ==> p.source() == source@,
{
    match Regex::new(source) {
        Ok(compiled) => Some(TokenPattern { source: source.to_string(), compiled }),
        Err(_) => None,
    }
}

/// Calls `regex::Regex::find` and converts the byte offset where the match ends into a count of
/// characters. The claim: the result is the named end of the match, which lies within the
/// haystack (a match is a range of the haystack).
#[verifier::external_body]
fn find_match_end(pattern: &TokenPattern, haystack: &str) -> (end: Option<usize>)
    ensures
        end matches Some(n) ==> regex_match_end(pattern.source(), haystack@) == Some(n as nat)
            && n <= haystack@.len(),
        end is None ==> regex_match_end(pattern.source(), haystack@) is None,
{
    pattern.compiled.find(haystack).map(|m| haystack[..m.end()].chars().count())
}

/// What a rule looks for at the current position.
pub enum Matcher {
    Char(char),
    TwoChars(char, char),
    Keyword(Vec<char>),
    /// A regular expression; `None` when it failed to compile.
    Pattern(Option<TokenPattern>),
}

pub struct Rule {
    pub kind: TokenKind,
    pub matcher: Matcher,
}

pub enum MatcherView {
    Char(char),
    TwoChars(char, char),
    Keyword(Seq<char>),
    Pattern(Option<Seq<char>>),
}

pub struct RuleView {
    pub kind: TokenKind,
    pub matcher: MatcherView,
}

impl View for Rule {
    type V = RuleView;

    open spec fn view(&self) -> RuleView {
        RuleView {
            kind: self.kind,
            matcher: match &self.matcher {
                Matcher::Char(c) => MatcherView::Char(*c),
                Matcher::TwoChars(a, b) => MatcherView::TwoChars(*a, *b),
                Matcher::Keyword(k) => MatcherView::Keyword(k@),
                Matcher::Pattern(p) => MatcherView::Pattern(
                    match p {
                        Some(p) => Some(p.source()),
                        None => None,
                    },
                ),
            },
        }
    }
}

pub open spec fn rules_view(rules: Seq<Rule>) -> Seq<RuleView> {
    rules.map_values(|r: Rule| r@)
}

pub open spec fn char_rule(kind: TokenKind, c: char) -> RuleView {
    RuleView { kind, matcher: MatcherView::Char(c) }
}

pub open spec fn two_chars_rule(kind: TokenKind, a: char, b: char) -> RuleView {
    RuleView { kind, matcher: MatcherView::TwoChars(a, b) }
}

pub open spec fn keyword_rule(kind: TokenKind) -> RuleView {
    RuleView { kind, matcher: MatcherView::Keyword(kind_name(kind)) }
}

pub open spec fn pattern_rule(kind: TokenKind, source: Seq<char>) -> RuleView {
    RuleView {
        kind,
        matcher: MatcherView::Pattern(
            if regex_compiles(source) {
                Some(source)
            } else {
                None
            },
        ),
    }
}

/// The rules, in order of precedence: of two matches of one length, the earlier rule wins.
pub open spec fn default_rules() -> Seq<RuleView> {
    seq![
        char_rule(TokenKind::Minus, '-'),
        char_rule(TokenKind::ExclamationMark, '!'),
        char_rule(TokenKind::Equals, '='),
        char_rule(TokenKind::LessThan, '<'),
        char_rule(TokenKind::GreaterThan, '>'),
        char_rule(TokenKind::Percent, '%'),
        two_chars_rule(TokenKind::Comment, '/', '/'),
        two_chars_rule(TokenKind::EqualsEquals, '=', '='),
        two_chars_rule(TokenKind::ExclamationMarkEquals, '!', '='),
        two_chars_rule(TokenKind::AmpersandAmpersand, '&', '&'),
        two_chars_rule(TokenKind::PipePipe, '|', '|'),
        two_chars_rule(TokenKind::LessThanEquals, '<', '='),
        two_chars_rule(TokenKind::GreaterThanEquals, '>', '='),
        two_chars_rule(TokenKind::Arrow, '-', '>'),
        keyword_rule(TokenKind::Extend),
        keyword_rule(TokenKind::Fn),
        keyword_rule(TokenKind::Let),
        keyword_rule(TokenKind::If),
        keyword_rule(TokenKind::Else),
        keyword_rule(TokenKind::Loop),
        keyword_rule(TokenKind::Return),
        keyword_rule(TokenKind::Continue),
        keyword_rule(TokenKind::Break),
        keyword_rule(TokenKind::While),
        pattern_rule(TokenKind::StringLiteral, "^\"((\\\\\"|\\\\\\\\)|[^\\\\\"])*\""@),
        pattern_rule(TokenKind::IntLiteral, "^[+-]?\\d+"@),
        pattern_rule(TokenKind::FloatLiteral, "^((\\d+(\\.\\d+)?)|(\\.\\d+))([Ee](\\+|-)?\\d+)?"@),
        pattern_rule(TokenKind::BoolLiteral, "^\\b(?:true|false)\\b"@),
        pattern_rule(TokenKind::Identifier, "^([A-Za-z]|_)([A-Za-z]|_|\\d)*"@),
    ]
}

fn pattern(kind: TokenKind, source: &str) -> (r: Rule)
    ensures
        r@ == pattern_rule(kind, source@),
{
    Rule { kind, matcher: Matcher::Pattern(compile_pattern(source)) }
}

fn keyword(kind: TokenKind) -> (r: Rule)
    ensures
        r@ == keyword_rule(kind),
{
    Rule { kind, matcher: Matcher::Keyword(chars_of(kind.name())) }
}

fn single(kind: TokenKind, c: char) -> (r: Rule)
    ensures
        r@ == char_rule(kind, c),
{
    Rule { kind, matcher: Matcher::Char(c) }
}

fn double(kind: TokenKind, a: char, b: char) -> (r: Rule)
    ensures
        r@ == two_chars_rule(kind, a, b),
{
    Rule { kind, matcher: Matcher::TwoChars(a, b) }
}

pub fn get_rules() -> (rules: Vec<Rule>)
    ensures
        rules_view(rules@) == default_rules(),
{
    let mut rules: Vec<Rule> = Vec::new();
    rules.push(single(TokenKind::Minus, '-'));
    rules.push(single(TokenKind::ExclamationMark, '!'));
    rules.push(single(TokenKind::Equals, '='));
    rules.push(single(TokenKind::LessThan, '<'));
    rules.push(single(TokenKind::GreaterThan, '>'));
    rules.push(single(TokenKind::Percent, '%'));
    rules.push(double(TokenKind::Comment, '/', '/'));
    rules.push(double(TokenKind::EqualsEquals, '=', '='));
    rules.push(double(TokenKind::ExclamationMarkEquals, '!', '='));
    rules.push(double(TokenKind::AmpersandAmpersand, '&', '&'));
    rules.push(double(TokenKind::PipePipe, '|', '|'));
    rules.push(double(TokenKind::LessThanEquals, '<', '='));
    rules.push(double(TokenKind::GreaterThanEquals, '>', '='));
    rules.push(double(TokenKind::Arrow, '-', '>'));
    rules.push(keyword(TokenKind::Extend));
    rules.push(keyword(TokenKind::Fn));
    rules.push(keyword(TokenKind::Let));
    rules.push(keyword(TokenKind::If));
    rules.push(keyword(TokenKind::Else));
    rules.push(keyword(TokenKind::Loop));
    rules.push(keyword(TokenKind::Return));
    rules.push(keyword(TokenKind::Continue));
    rules.push(keyword(TokenKind::Break));
    rules.push(keyword(TokenKind::While));
    rules.push(pattern(TokenKind::StringLiteral, "^\"((\\\\\"|\\\\\\\\)|[^\\\\\"])*\""));
    rules.push(pattern(TokenKind::IntLiteral, "^[+-]?\\d+"));
    rules.push(pattern(TokenKind::FloatLiteral, "^((\\d+(\\.\\d+)?)|(\\.\\d+))([Ee](\\+|-)?\\d+)?"));
    rules.push(pattern(TokenKind::BoolLiteral, "^\\b(?:true|false)\\b"));
    rules.push(pattern(TokenKind::Identifier, "^([A-Za-z]|_)([A-Za-z]|_|\\d)*"));
    assert(rules_view(rules@) =~= default_rules());
    rules
}

/// The length a rule matches at `pos` of `input`, when it matches a non-empty prefix there.
pub open spec fn rule_match(rule: RuleView, input: Seq<char>, pos: int) -> Option<nat> {
    match rule.matcher {
        MatcherView::Char(c) => if 0 <= pos < input.len() && input[pos] == c {
            Some(1)
        } else {
            None
        },
        MatcherView::TwoChars(a, b) => if 0 <= pos && pos + 2 <= input.len() && input[pos] == a
            && input[pos + 1] == b {
            Some(2)
        } else {
            None
        },
        MatcherView::Keyword(k) => if 0 <= pos && 0 < k.len() && pos + k.len() <= input.len()
            && input.subrange(pos, pos + k.len()) == k {
            Some(k.len())
        } else {
            None
        },
        MatcherView::Pattern(p) => match p {
            None => None,
            Some(p) => if 0 <= pos <= input.len() {
                match regex_match_end(p, input.subrange(pos, input.len() as int)) {
                    Some(n) => if 0 < n && pos + n <= input.len() {
                        Some(n)
                    } else {
                        None
                    },
                    None => None,
                }
            } else {
                None
            },
        },
    }
}

/// `Some(1)` when `input[pos]` is `c`.
pub fn match_single_char(input: &Vec<char>, pos: usize, c: char) -> (r: Option<usize>)
    ensures
        r == (if pos < input@.len() && input@[pos as int] == c {
            Some(1usize)
        } else {
            None
        }),
{
    if pos < input.len() && input[pos] == c {
        Some(1)
    } else {
        None
    }
}

/// `Some(2)` when `input[pos..]` starts with `first` and `second`.
pub fn match_two_chars(input: &Vec<char>, pos: usize, first: char, second: char) -> (r: Option<
    usize,
>)
    ensures
        r == (if pos + 2 <= input@.len() && input@[pos as int] == first && input@[pos + 1]
            == second {
            Some(2usize)
        } else {
            None
        }),
{
    if pos < input.len() && input.len() - pos >= 2 {
        match match_single_char(input, pos, first) {
            Some(_) => match match_single_char(input, pos + 1, second) {
                Some(_) => Some(2),
                None => None,
            },
            None => None,
        }
    } else {
        None
    }
}

/// `Some(keyword.len())` when `input[pos..]` starts with `keyword`.
pub fn match_keyword(input: &Vec<char>, pos: usize, keyword: &Vec<char>) -> (r: Option<usize>)
    ensures
        r == (if pos + keyword@.len() <= input@.len() && input@.subrange(
            pos as int,
            pos + keyword@.len(),
        ) == keyword@ {
            Some(keyword@.len() as usize)
        } else {
            None
        }),
{
    if pos > input.len() || input.len() - pos < keyword.len() {
        return None;
    }
    let mut i: usize = 0;
    while i < keyword.len()
        invariant
            pos + keyword.len() <= input.len(),
            i <= keyword.len(),
            input@.subrange(pos as int, pos + i) == keyword@.take(i as int),
        decreases keyword@.len() - i,
    {
        if input[pos + i] != keyword[i] {
            assert(input@.subrange(pos as int, pos + keyword@.len())[i as int] != keyword@[i as int]);
            return None;
        }
        i = i + 1;
        assert(input@.subrange(pos as int, pos + i) =~= keyword@.take(i as int));
    }
    assert(keyword@.take(i as int) =~= keyword@);
    Some(keyword.len())
}

/// The end of the match of `pattern` on `text[pos..]`, in characters, as `regex` finds it.
pub fn match_regex(text: &str, pos: usize, pattern: &TokenPattern) -> (r: Option<usize>)
    requires
        pos <= text@.len(),
    ensures
        r matches Some(n) ==> regex_match_end(
            pattern.source(),
            text@.subrange(pos as int, text@.len() as int),
        ) == Some(n as nat) && pos + n <= text@.len(),
        r is None ==> regex_match_end(
            pattern.source(),
            text@.subrange(pos as int, text@.len() as int),
        ) is None,
{
    let haystack = text.substring_char(pos, text.unicode_len());
    find_match_end(pattern, haystack)
}

/// The length the rule matches at `pos`.
pub fn apply_rule(text: &str, chars: &Vec<char>, pos: usize, rule: &Rule) -> (r: Option<usize>)
    requires
        text@ == chars@,
        pos <= chars@.len(),
    ensures
        r matches Some(n) ==> rule_match(rule@, chars@, pos as int) == Some(n as nat),
        r is None ==> rule_match(rule@, chars@, pos as int) is None,
{
    match &rule.matcher {
        Matcher::Char(c) => {
            let r = match_single_char(chars, pos, *c);
            assert(rule@.matcher == MatcherView::Char(*c));
            r
        },
        Matcher::TwoChars(a, b) => {
            let r = match_two_chars(chars, pos, *a, *b);
            assert(rule@.matcher == MatcherView::TwoChars(*a, *b));
            r
        },
        Matcher::Keyword(k) => {
            assert(rule@.matcher == MatcherView::Keyword(k@));
            if k.len() == 0 {
                None
            } else {
                match_keyword(chars, pos, k)
            }
        },
        Matcher::Pattern(p) => match p {
            None => None,
            Some(p) => match match_regex(text, pos, p) {
                Some(n) => if n > 0 {
                    Some(n)
                } else {
                    None
                },
                None => None,
            },
        },
    }
}

/// The unambiguous single-character tokens.
pub open spec fn unambiguous_kind(c: char) -> Option<TokenKind> {
    if c == '(' {
        Some(TokenKind::ParenOpen)
    } else if c == ')' {
        Some(TokenKind::ParenClose)
    } else if c == '{' {
        Some(TokenKind::BraceOpen)
    } else if c == '}' {
        Some(TokenKind::BraceClose)
    } else if c == '[' {
        Some(TokenKind::SquareOpen)
    } else if c == ']' {
        Some(TokenKind::SquareClose)
    } else if c == ';' {
        Some(TokenKind::Semicolon)
    } else if c == '.' {
        Some(TokenKind::Period)
    } else if c == ',' {
        Some(TokenKind::Comma)
    } else if c == '+' {
        Some(TokenKind::Plus)
    } else if c == '*' {
        Some(TokenKind::Asterisk)
    } else {
        None
    }
}

pub fn get_unambiguous_token(c: char) -> (k: Option<TokenKind>)
    ensures
        k == unambiguous_kind(c),
{
    match c {
        '(' => Some(TokenKind::ParenOpen),
        ')' => Some(TokenKind::ParenClose),
        '{' => Some(TokenKind::BraceOpen),
        '}' => Some(TokenKind::BraceClose),
        '[' => Some(TokenKind::SquareOpen),
        ']' => Some(TokenKind::SquareClose),
        ';' => Some(TokenKind::Semicolon),
        '.' => Some(TokenKind::Period),
        ',' => Some(TokenKind::Comma),
        '+' => Some(TokenKind::Plus),
        '*' => Some(TokenKind::Asterisk),
        _ => None,
    }
}

} // verus!
