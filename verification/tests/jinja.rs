use pycavalry::jinja::{tokenize, try_tokenize, Token, TokenType};
use pycavalry::TextRange;

fn t(typ: TokenType, start: usize, end: usize) -> Token {
    Token::from((typ, start..end))
}

fn tokens(content: &str) -> Vec<Token> {
    tokenize(content).unwrap()
}

#[test]
fn text_has_no_tokens_but_its_end() {
    assert_eq!(tokens(""), vec![t(TokenType::Eof, 0, 0)]);
    assert_eq!(tokens("hello { world } 1 + 2"), vec![t(TokenType::Eof, 21, 21)]);
    assert_eq!(tokens("{"), vec![t(TokenType::Eof, 1, 1)]);
}

#[test]
fn variable_block() {
    assert_eq!(
        tokens("{{ a + 1 }}"),
        vec![
            t(TokenType::VariableBegin, 0, 2),
            t(TokenType::Add, 5, 6),
            t(TokenType::Integer, 7, 8),
            t(TokenType::VariableEnd, 9, 11),
            t(TokenType::Eof, 11, 11),
        ]
    );
}

#[test]
fn statement_block() {
    assert_eq!(
        tokens("a{% if x >= 10 %}b"),
        vec![
            t(TokenType::StatementBegin, 1, 3),
            t(TokenType::Gteq, 9, 11),
            t(TokenType::Integer, 12, 14),
            t(TokenType::StatementEnd, 15, 17),
            t(TokenType::Eof, 18, 18),
        ]
    );
}

#[test]
fn operators() {
    assert_eq!(
        tokens("{{+-/ // * ** % ~[]() { } > >= < <= = == .:|,; != ! }}"),
        vec![
            t(TokenType::VariableBegin, 0, 2),
            t(TokenType::Add, 2, 3),
            t(TokenType::Sub, 3, 4),
            t(TokenType::Div, 4, 5),
            t(TokenType::Floordiv, 6, 8),
            t(TokenType::Mul, 9, 10),
            t(TokenType::Pow, 11, 13),
            t(TokenType::Mod, 14, 15),
            t(TokenType::Tilde, 16, 17),
            t(TokenType::Lbracket, 17, 18),
            t(TokenType::Rbracket, 18, 19),
            t(TokenType::Lparen, 19, 20),
            t(TokenType::Rparen, 20, 21),
            t(TokenType::Lbrace, 22, 23),
            t(TokenType::Rbrace, 24, 25),
            t(TokenType::Gt, 26, 27),
            t(TokenType::Gteq, 28, 30),
            t(TokenType::Lt, 31, 32),
            t(TokenType::Lteq, 33, 35),
            t(TokenType::Assign, 36, 37),
            t(TokenType::Eq, 38, 40),
            t(TokenType::Dot, 41, 42),
            t(TokenType::Colon, 42, 43),
            t(TokenType::Pipe, 43, 44),
            t(TokenType::Comma, 44, 45),
            t(TokenType::Semicolon, 45, 46),
            t(TokenType::Ne, 47, 49),
            t(TokenType::VariableEnd, 52, 54),
            t(TokenType::Eof, 54, 54),
        ]
    );
}

#[test]
fn numbers() {
    assert_eq!(
        tokens("{{ 12 3.25 7}}"),
        vec![
            t(TokenType::VariableBegin, 0, 2),
            t(TokenType::Integer, 3, 5),
            t(TokenType::Float, 6, 10),
            t(TokenType::Integer, 11, 12),
            t(TokenType::VariableEnd, 12, 14),
            t(TokenType::Eof, 14, 14),
        ]
    );
}

#[test]
fn comments() {
    assert_eq!(tokens("{# hi #}"), vec![t(TokenType::Comment, 0, 8), t(TokenType::Eof, 8, 8)]);
    assert_eq!(tokens("a{# {{ 1 #}b"), vec![t(TokenType::Comment, 1, 11), t(TokenType::Eof, 12, 12)]);
    assert_eq!(tokens("{# hi"), vec![t(TokenType::Comment, 0, 5), t(TokenType::Eof, 5, 5)]);
    assert_eq!(tokens("{# hi #"), vec![t(TokenType::Comment, 0, 7), t(TokenType::Eof, 7, 7)]);
    assert_eq!(tokens("{##}"), vec![t(TokenType::Comment, 0, 4), t(TokenType::Eof, 4, 4)]);
}

#[test]
fn quotes_and_letters_are_passed_over() {
    assert_eq!(
        tokens("{{ name \"text\" 'x' }}"),
        vec![
            t(TokenType::VariableBegin, 0, 2),
            t(TokenType::VariableEnd, 19, 21),
            t(TokenType::Eof, 21, 21),
        ]
    );
}

#[test]
fn positions_count_bytes() {
    assert_eq!(
        tokens("é{{ ü 1 }}ß"),
        vec![
            t(TokenType::VariableBegin, 2, 4),
            t(TokenType::Integer, 8, 9),
            t(TokenType::VariableEnd, 10, 12),
            t(TokenType::Eof, 14, 14),
        ]
    );
}

#[test]
fn several_blocks() {
    assert_eq!(
        tokens("{{1}}{%2%}"),
        vec![
            t(TokenType::VariableBegin, 0, 2),
            t(TokenType::Integer, 2, 3),
            t(TokenType::VariableEnd, 3, 5),
            t(TokenType::StatementBegin, 5, 7),
            t(TokenType::Integer, 7, 8),
            t(TokenType::StatementEnd, 8, 10),
            t(TokenType::Eof, 10, 10),
        ]
    );
}

#[test]
fn a_block_may_end_with_either_end() {
    assert_eq!(
        tokens("{{ 1 %} x"),
        vec![
            t(TokenType::VariableBegin, 0, 2),
            t(TokenType::Integer, 3, 4),
            t(TokenType::StatementEnd, 5, 7),
            t(TokenType::Eof, 9, 9),
        ]
    );
}

#[test]
fn templates_without_tokens() {
    assert_eq!(try_tokenize("{{"), None);
    assert_eq!(try_tokenize("{{ a + 1"), None);
    assert_eq!(try_tokenize("{% if x }"), None);
    assert_eq!(try_tokenize("{{ 1"), None);
    assert_eq!(try_tokenize("{{ 1. }}"), None);
    assert_eq!(try_tokenize("{{ 1.2.3 }}"), None);
    assert_eq!(try_tokenize("{{ 1.5"), None);
    assert_eq!(try_tokenize("{{ 1 }}"), Some(tokens("{{ 1 }}")));
}

#[test]
fn token_from_its_parts() {
    let range = TextRange::new(2, 4);
    assert_eq!(Token::new(TokenType::Name, range), Token { typ: TokenType::Name, range });
    assert_eq!(Token::from((TokenType::Name, range)), Token { typ: TokenType::Name, range });
    assert_eq!(Token::from((TokenType::String, 2..4)), Token { typ: TokenType::String, range });
}
