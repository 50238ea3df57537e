use crate::diagnostics::reporter::Diag;
use crate::span::TextRange;
use std::ops::Range;
use vstd::pervasive::unreached;
use vstd::prelude::*;
use vstd::std_specs::convert::FromSpecImpl;
use vstd::string::StringSliceAdditionalSpecFns;

verus! {

/// The kinds of token in a template.
#[derive(Clone, Copy, Debug, PartialEq, Eq, Hash, Structural)]
pub enum TokenType {
    Add,
    Assign,
    Colon,
    Comma,
    Div,
    Dot,
    Eq,
    Floordiv,
    Gt,
    Gteq,
    Lbrace,
    Lbracket,
    Lparen,
    Lt,
    Lteq,
    Mod,
    Mul,
    Ne,
    Pipe,
    Pow,
    Rbrace,
    Rbracket,
    Rparen,
    Semicolon,
    Sub,
    Tilde,
    Float,
    Integer,
    Name,
    String,
    VariableBegin,
    VariableEnd,
    RawBegin,
    RawEnd,
    Comment,
    StatementBegin,
    StatementEnd,
    Eof,
}

/// A token: its kind and the bytes of the template it covers.
#[derive(Clone, Copy, Debug, PartialEq, Eq, Hash, Structural)]
pub struct Token {
    pub typ: TokenType,
    pub range: TextRange,
}

impl Token {
    /// The token of the given kind over the given range.
    pub fn new(typ: TokenType, range: TextRange) -> (r: Token)
        ensures
            r == (Token { typ, range }),
    {
        Token { typ, range }
    }
}

impl From<Range<usize>> for TextRange {
    fn from(value: Range<usize>) -> (r: TextRange) {
        TextRange { start: value.start, end: value.end }
    }
}

impl FromSpecImpl<Range<usize>> for TextRange {
    open spec fn obeys_from_spec() -> bool {
        true
    }

    open spec fn from_spec(value: Range<usize>) -> TextRange {
        TextRange { start: value.start, end: value.end }
    }
}

impl From<(TokenType, TextRange)> for Token {
    fn from(value: (TokenType, TextRange)) -> (r: Token) {
        Token::new(value.0, value.1)
    }
}

impl FromSpecImpl<(TokenType, TextRange)> for Token {
    open spec fn obeys_from_spec() -> bool {
        true
    }

    open spec fn from_spec(value: (TokenType, TextRange)) -> Token {
        Token { typ: value.0, range: value.1 }
    }
}

impl From<(TokenType, Range<usize>)> for Token {
    fn from(value: (TokenType, Range<usize>)) -> (r: Token) {
        Token::new(value.0, TextRange { start: value.1.start, end: value.1.end })
    }
}

impl FromSpecImpl<(TokenType, Range<usize>)> for Token {
    open spec fn obeys_from_spec() -> bool {
        true
    }

    open spec fn from_spec(value: (TokenType, Range<usize>)) -> Token {
        Token { typ: value.0, range: TextRange { start: value.1.start, end: value.1.end } }
    }
}

// ---------------------------------------------------------------------------
// What the tokens of a template are
// ---------------------------------------------------------------------------

/// The token of kind `typ` that covers `len` bytes from position `start`.
pub open spec fn token_at(typ: TokenType, start: nat, len: nat) -> Token {
    Token { typ, range: TextRange { start: start as usize, end: (start + len) as usize } }
}

/// The tokens `rest` behind the token `first`, where there is a rest.
pub open spec fn followed(first: Token, rest: Option<Seq<Token>>) -> Option<Seq<Token>> {
    match rest {
        Some(r) => Some(seq![first] + r),
        None => None,
    }
}

/// The tokens `rest` behind the tokens `acc`, where there is a rest.
pub open spec fn run(acc: Seq<Token>, rest: Option<Seq<Token>>) -> Option<Seq<Token>> {
    match rest {
        Some(r) => Some(acc + r),
        None => None,
    }
}

/// Whether a byte is a decimal digit.
pub open spec fn is_digit(c: u8) -> bool {
    48 <= c <= 57
}

/// Whether a byte is a blank between tokens: a space, a line feed or a tab.
pub open spec fn is_blank(c: u8) -> bool {
    c == 32 || c == 10 || c == 9
}

/// The byte at position `i`, if there is one.
pub open spec fn byte_at(b: Seq<u8>, i: nat) -> Option<u8> {
    if i < b.len() {
        Some(b[i as int])
    } else {
        None
    }
}

/// The kind of the operator that the byte `c` opens, and the byte that
/// must follow for it to be the longer of two operators with its kind.
pub open spec fn operator(c: u8) -> Option<(TokenType, Option<(u8, TokenType)>)> {
    if c == 43 {
        Some((TokenType::Add, None))
    } else if c == 45 {
        Some((TokenType::Sub, None))
    } else if c == 47 {
        Some((TokenType::Div, Some((47u8, TokenType::Floordiv))))
    } else if c == 42 {
        Some((TokenType::Mul, Some((42u8, TokenType::Pow))))
    } else if c == 126 {
        Some((TokenType::Tilde, None))
    } else if c == 91 {
        Some((TokenType::Lbracket, None))
    } else if c == 93 {
        Some((TokenType::Rbracket, None))
    } else if c == 40 {
        Some((TokenType::Lparen, None))
    } else if c == 41 {
        Some((TokenType::Rparen, None))
    } else if c == 123 {
        Some((TokenType::Lbrace, None))
    } else if c == 62 {
        Some((TokenType::Gt, Some((61u8, TokenType::Gteq))))
    } else if c == 60 {
        Some((TokenType::Lt, Some((61u8, TokenType::Lteq))))
    } else if c == 61 {
        Some((TokenType::Assign, Some((61u8, TokenType::Eq))))
    } else if c == 46 {
        Some((TokenType::Dot, None))
    } else if c == 58 {
        Some((TokenType::Colon, None))
    } else if c == 124 {
        Some((TokenType::Pipe, None))
    } else if c == 44 {
        Some((TokenType::Comma, None))
    } else if c == 59 {
        Some((TokenType::Semicolon, None))
    } else {
        None
    }
}

/// The tokens of the template from position `i` on, outside any block: up
/// to the next `{{`, `{%` or `{#` nothing is a token, and the end of the
/// template is one.
///
/// There are none where the template ends inside a `{{` or `{%` block, or
/// where a number in such a block is no number.
pub open spec fn text_tokens(b: Seq<u8>, i: nat) -> Option<Seq<Token>>
    decreases b.len() - i, 0nat,
{
    if i >= b.len() {
        Some(seq![token_at(TokenType::Eof, b.len(), 0)])
    } else if b[i as int] != 123 {
        text_tokens(b, i + 1)
    } else if byte_at(b, i + 1) == Some(123u8) {
        followed(token_at(TokenType::VariableBegin, i, 2), block_tokens(b, i + 2))
    } else if byte_at(b, i + 1) == Some(37u8) {
        followed(token_at(TokenType::StatementBegin, i, 2), block_tokens(b, i + 2))
    } else if byte_at(b, i + 1) == Some(35u8) {
        comment_tokens(b, i + 2, i)
    } else {
        text_tokens(b, i + 1)
    }
}

/// The tokens of the template from position `i` on, inside a `{{` or `{%`
/// block. The block ends with `}}` or `%}`. Quotes and letters are passed
/// over.
pub open spec fn block_tokens(b: Seq<u8>, i: nat) -> Option<Seq<Token>>
    decreases b.len() - i, 0nat,
{
    if i >= b.len() {
        None
    } else {
        let c = b[i as int];
        if is_blank(c) {
            block_tokens(b, i + 1)
        } else if c == 37 {
            if byte_at(b, i + 1) == Some(125u8) {
                followed(token_at(TokenType::StatementEnd, i, 2), text_tokens(b, i + 2))
            } else {
                followed(token_at(TokenType::Mod, i, 1), block_tokens(b, i + 1))
            }
        } else if c == 125 {
            if byte_at(b, i + 1) == Some(125u8) {
                followed(token_at(TokenType::VariableEnd, i, 2), text_tokens(b, i + 2))
            } else {
                followed(token_at(TokenType::Rbrace, i, 1), block_tokens(b, i + 1))
            }
        } else if c == 33 {
            if byte_at(b, i + 1) == Some(61u8) {
                followed(token_at(TokenType::Ne, i, 2), block_tokens(b, i + 2))
            } else {
                block_tokens(b, i + 1)
            }
        } else if is_digit(c) {
            number_tokens(b, i + 1, i, true, false)
        } else {
            match operator(c) {
                Some((short, Some((second, long)))) => if byte_at(b, i + 1) == Some(second) {
                    followed(token_at(long, i, 2), block_tokens(b, i + 2))
                } else {
                    followed(token_at(short, i, 1), block_tokens(b, i + 1))
                },
                Some((short, None)) => followed(token_at(short, i, 1), block_tokens(b, i + 1)),
                None => block_tokens(b, i + 1),
            }
        }
    }
}

/// The tokens of the template from position `i` on, inside a number that
/// began at `start`: digits with at most one dot among them, which is not
/// the last of them. The number ends before the first byte that is neither.
pub open spec fn number_tokens(
    b: Seq<u8>,
    i: nat,
    start: nat,
    is_int: bool,
    last_was_dot: bool,
) -> Option<Seq<Token>>
    decreases b.len() - i, 1nat,
{
    if i >= b.len() {
        None
    } else {
        let c = b[i as int];
        if is_digit(c) {
            number_tokens(b, i + 1, start, is_int, false)
        } else if c == 46 {
            if !is_int {
                None
            } else {
                number_tokens(b, i + 1, start, false, true)
            }
        } else if last_was_dot {
            None
        } else {
            followed(
                token_at(
                    if is_int {
                        TokenType::Integer
                    } else {
                        TokenType::Float
                    },
                    start,
                    (i - start) as nat,
                ),
                block_tokens(b, i),
            )
        }
    }
}

/// The tokens of the template from position `i` on, inside a comment that
/// began at `start`. The comment ends with `#}`, or with the template.
pub open spec fn comment_tokens(b: Seq<u8>, i: nat, start: nat) -> Option<Seq<Token>>
    decreases b.len() - i, 1nat,
{
    if i >= b.len() {
        followed(token_at(TokenType::Comment, start, (b.len() - start) as nat), text_tokens(b, i))
    } else if b[i as int] == 35 && byte_at(b, i + 1) == Some(125u8) {
        followed(token_at(TokenType::Comment, start, (i + 2 - start) as nat), text_tokens(b, i + 1))
    } else {
        comment_tokens(b, i + 1, start)
    }
}

/// The tokens of a template, given as its bytes.
pub open spec fn template_tokens(b: Seq<u8>) -> Option<Seq<Token>> {
    text_tokens(b, 0)
}

// ---------------------------------------------------------------------------
// Finding the tokens
// ---------------------------------------------------------------------------

/// A token at the head of the rest is a token at the end of what is there.
pub proof fn lemma_run_followed(acc: Seq<Token>, first: Token, rest: Option<Seq<Token>>)
    ensures
        run(acc, followed(first, rest)) == run(acc.push(first), rest),
{
    match rest {
        Some(r) => {
            assert(acc + (seq![first] + r) =~= acc.push(first) + r);
        },
        None => {},
    }
}

fn add_token(tokens: &mut Vec<Token>, pos: &mut usize, i: usize, len: usize, typ: TokenType)
    requires
        len >= 1,
        i + len <= usize::MAX,
    ensures
        final(tokens)@ == old(tokens)@.push(token_at(typ, i as nat, len as nat)),
        *final(pos) == i + len,
{
    tokens.push(Token::new(typ, TextRange { start: i, end: i + len }));
    *pos = i + len;
}

fn operator_of(c: u8) -> (r: Option<(TokenType, Option<(u8, TokenType)>)>)
    ensures
        r == operator(c),
{
    if c == 43 {
        Some((TokenType::Add, None))
    } else if c == 45 {
        Some((TokenType::Sub, None))
    } else if c == 47 {
        Some((TokenType::Div, Some((47u8, TokenType::Floordiv))))
    } else if c == 42 {
        Some((TokenType::Mul, Some((42u8, TokenType::Pow))))
    } else if c == 126 {
        Some((TokenType::Tilde, None))
    } else if c == 91 {
        Some((TokenType::Lbracket, None))
    } else if c == 93 {
        Some((TokenType::Rbracket, None))
    } else if c == 40 {
        Some((TokenType::Lparen, None))
    } else if c == 41 {
        Some((TokenType::Rparen, None))
    } else if c == 123 {
        Some((TokenType::Lbrace, None))
    } else if c == 62 {
        Some((TokenType::Gt, Some((61u8, TokenType::Gteq))))
    } else if c == 60 {
        Some((TokenType::Lt, Some((61u8, TokenType::Lteq))))
    } else if c == 61 {
        Some((TokenType::Assign, Some((61u8, TokenType::Eq))))
    } else if c == 46 {
        Some((TokenType::Dot, None))
    } else if c == 58 {
        Some((TokenType::Colon, None))
    } else if c == 124 {
        Some((TokenType::Pipe, None))
    } else if c == 44 {
        Some((TokenType::Comma, None))
    } else if c == 59 {
        Some((TokenType::Semicolon, None))
    } else {
        None
    }
}

/// Whether the byte at position `i` is `c`.
fn peek_is(bytes: &[u8], i: usize, c: u8) -> (r: bool)
    ensures
        r == (i < bytes@.len() && bytes@[i as int] == c),
{
    i < bytes.len() && bytes[i] == c
}

/// Read a number that began at `start`, from the byte after its first
/// digit. Says whether it is a number that ends inside the template; where
/// it is none, the template has no tokens.
fn tokenize_number(tokens: &mut Vec<Token>, bytes: &[u8], pos: &mut usize, start: usize) -> (ok:
    bool)
    requires
        start < *old(pos) <= bytes@.len(),
    ensures
        !ok ==> number_tokens(bytes@, *old(pos) as nat, start as nat, true, false) is None,
        ok ==> run(final(tokens)@, block_tokens(bytes@, *final(pos) as nat)) == run(
            old(tokens)@,
            number_tokens(bytes@, *old(pos) as nat, start as nat, true, false),
        ),
        ok ==> *old(pos) <= *final(pos) < bytes@.len(),
{
    let mut is_int = true;
    let mut last_was_dot = false;
    loop
        invariant
            start < *pos <= bytes@.len(),
            *old(pos) <= *pos,
            tokens@ == old(tokens)@,
            number_tokens(bytes@, *old(pos) as nat, start as nat, true, false) == number_tokens(
                bytes@,
                *pos as nat,
                start as nat,
                is_int,
                last_was_dot,
            ),
        decreases bytes@.len() - *pos,
    {
        if *pos >= bytes.len() {
            return false;
        }
        let c = bytes[*pos];
        if 48 <= c && c <= 57 {
            last_was_dot = false;
            *pos = *pos + 1;
        } else if c == 46 {
            last_was_dot = true;
            if !is_int {
                return false;
            }
            is_int = false;
            *pos = *pos + 1;
        } else {
            if last_was_dot {
                return false;
            }
            let typ = if is_int {
                TokenType::Integer
            } else {
                TokenType::Float
            };
            proof {
                lemma_run_followed(
                    tokens@,
                    token_at(typ, start as nat, (*pos - start) as nat),
                    block_tokens(bytes@, *pos as nat),
                );
            }
            tokens.push(Token::new(typ, TextRange { start, end: *pos }));
            return true;
        }
    }
}

/// Read the inside of a `{{` or `{%` block up to and with its end. Says
/// whether the block ends inside the template and its numbers are numbers;
/// where not, the template has no tokens.
fn tokenize_jinja(tokens: &mut Vec<Token>, bytes: &[u8], pos: &mut usize) -> (ok: bool)
    requires
        *old(pos) <= bytes@.len(),
    ensures
        !ok ==> block_tokens(bytes@, *old(pos) as nat) is None,
        ok ==> run(final(tokens)@, text_tokens(bytes@, *final(pos) as nat)) == run(
            old(tokens)@,
            block_tokens(bytes@, *old(pos) as nat),
        ),
        ok ==> *old(pos) <= *final(pos) <= bytes@.len(),
{
    let ghost goal = run(tokens@, block_tokens(bytes@, *pos as nat));
    loop
        invariant
            *old(pos) <= *pos <= bytes@.len(),
            goal == run(old(tokens)@, block_tokens(bytes@, *old(pos) as nat)),
            goal == run(tokens@, block_tokens(bytes@, *pos as nat)),
        decreases bytes@.len() - *pos,
    {
        if *pos >= bytes.len() {
            return false;
        }
        let curr_i = *pos;
        let curr_char = bytes[curr_i];
        *pos = curr_i + 1;
        if curr_char == 32 || curr_char == 10 || curr_char == 9 {
            continue ;
        }
        if curr_char == 37 {
            if peek_is(bytes, curr_i + 1, 125) {
                proof {
                    lemma_run_followed(
                        tokens@,
                        token_at(TokenType::StatementEnd, curr_i as nat, 2),
                        text_tokens(bytes@, (curr_i + 2) as nat),
                    );
                }
                add_token(tokens, pos, curr_i, 2, TokenType::StatementEnd);
                return true;
            }
            proof {
                lemma_run_followed(
                    tokens@,
                    token_at(TokenType::Mod, curr_i as nat, 1),
                    block_tokens(bytes@, (curr_i + 1) as nat),
                );
            }
            add_token(tokens, pos, curr_i, 1, TokenType::Mod);
        } else if curr_char == 125 {
            if peek_is(bytes, curr_i + 1, 125) {
                proof {
                    lemma_run_followed(
                        tokens@,
                        token_at(TokenType::VariableEnd, curr_i as nat, 2),
                        text_tokens(bytes@, (curr_i + 2) as nat),
                    );
                }
                add_token(tokens, pos, curr_i, 2, TokenType::VariableEnd);
                return true;
            }
            proof {
                lemma_run_followed(
                    tokens@,
                    token_at(TokenType::Rbrace, curr_i as nat, 1),
                    block_tokens(bytes@, (curr_i + 1) as nat),
                );
            }
            add_token(tokens, pos, curr_i, 1, TokenType::Rbrace);
        } else if curr_char == 33 {
            if peek_is(bytes, curr_i + 1, 61) {
                proof {
                    lemma_run_followed(
                        tokens@,
                        token_at(TokenType::Ne, curr_i as nat, 2),
                        block_tokens(bytes@, (curr_i + 2) as nat),
                    );
                }
                add_token(tokens, pos, curr_i, 2, TokenType::Ne);
            }
        } else if 48 <= curr_char && curr_char <= 57 {
            if !tokenize_number(tokens, bytes, pos, curr_i) {
                return false;
            }
        } else {
            match operator_of(curr_char) {
                Some((short, Some((second, long)))) => {
                    if peek_is(bytes, curr_i + 1, second) {
                        proof {
                            lemma_run_followed(
                                tokens@,
                                token_at(long, curr_i as nat, 2),
                                block_tokens(bytes@, (curr_i + 2) as nat),
                            );
                        }
                        add_token(tokens, pos, curr_i, 2, long);
                    } else {
                        proof {
                            lemma_run_followed(
                                tokens@,
                                token_at(short, curr_i as nat, 1),
                                block_tokens(bytes@, (curr_i + 1) as nat),
                            );
                        }
                        add_token(tokens, pos, curr_i, 1, short);
                    }
                },
                Some((short, None)) => {
                    proof {
                        lemma_run_followed(
                            tokens@,
                            token_at(short, curr_i as nat, 1),
                            block_tokens(bytes@, (curr_i + 1) as nat),
                        );
                    }
                    add_token(tokens, pos, curr_i, 1, short);
                },
                None => {},
            }
        }
    }
}

/// Read a comment that began at `start`, from the byte after its `{#`, up
/// to the `#` of its `#}` or to the end of the template.
fn tokenize_comment(tokens: &mut Vec<Token>, bytes: &[u8], pos: &mut usize, start: usize)
    requires
        start < *old(pos) <= bytes@.len(),
    ensures
        run(final(tokens)@, text_tokens(bytes@, *final(pos) as nat)) == run(
            old(tokens)@,
            comment_tokens(bytes@, *old(pos) as nat, start as nat),
        ),
        *old(pos) <= *final(pos) <= bytes@.len(),
{
    loop
        invariant
            start < *pos <= bytes@.len(),
            *old(pos) <= *pos,
            tokens@ == old(tokens)@,
            comment_tokens(bytes@, *old(pos) as nat, start as nat) == comment_tokens(
                bytes@,
                *pos as nat,
                start as nat,
            ),
        decreases bytes@.len() - *pos,
    {
        if *pos >= bytes.len() {
            proof {
                lemma_run_followed(
                    tokens@,
                    token_at(TokenType::Comment, start as nat, (bytes@.len() - start) as nat),
                    text_tokens(bytes@, *pos as nat),
                );
            }
            tokens.push(Token::new(TokenType::Comment, TextRange { start, end: bytes.len() }));
            return ;
        }
        let curr_i = *pos;
        *pos = curr_i + 1;
        if bytes[curr_i] == 35 && peek_is(bytes, curr_i + 1, 125) {
            proof {
                lemma_run_followed(
                    tokens@,
                    token_at(TokenType::Comment, start as nat, (curr_i + 2 - start) as nat),
                    text_tokens(bytes@, (curr_i + 1) as nat),
                );
            }
            tokens.push(Token::new(TokenType::Comment, TextRange { start, end: curr_i + 2 }));
            return ;
        }
    }
}

/// The tokens of a template, or nothing where the template ends inside a
/// `{{` or `{%` block or holds in such a block a number that is none.
pub fn try_tokenize(content: &str) -> (r: Option<Vec<Token>>)
    ensures
        match r {
            Some(tokens) => template_tokens(content.spec_bytes()) == Some(tokens@),
            None => template_tokens(content.spec_bytes()) is None,
        },
{
    let bytes = content.as_bytes();
    let mut tokens: Vec<Token> = Vec::new();
    let mut pos: usize = 0;
    let ghost goal = text_tokens(bytes@, 0);
    proof {
        match goal {
            Some(g) => {
                assert(tokens@ + g =~= g);
            },
            None => {},
        }
    }
    loop
        invariant
            pos <= bytes@.len(),
            bytes@ == content.spec_bytes(),
            goal == text_tokens(bytes@, 0),
            goal == run(tokens@, text_tokens(bytes@, pos as nat)),
        decreases bytes@.len() - pos,
    {
        if pos >= bytes.len() {
            proof {
                assert(tokens@ + seq![token_at(TokenType::Eof, bytes@.len(), 0)] =~= tokens@.push(
                    token_at(TokenType::Eof, bytes@.len(), 0),
                ));
            }
            tokens.push(
                Token::new(TokenType::Eof, TextRange { start: bytes.len(), end: bytes.len() }),
            );
            return Some(tokens);
        }
        let curr_i = pos;
        let curr_char = bytes[curr_i];
        pos = curr_i + 1;
        if curr_char == 123 {
            if peek_is(bytes, curr_i + 1, 123) {
                proof {
                    lemma_run_followed(
                        tokens@,
                        token_at(TokenType::VariableBegin, curr_i as nat, 2),
                        block_tokens(bytes@, (curr_i + 2) as nat),
                    );
                }
                add_token(&mut tokens, &mut pos, curr_i, 2, TokenType::VariableBegin);
                if !tokenize_jinja(&mut tokens, bytes, &mut pos) {
                    return None;
                }
            } else if peek_is(bytes, curr_i + 1, 37) {
                proof {
                    lemma_run_followed(
                        tokens@,
                        token_at(TokenType::StatementBegin, curr_i as nat, 2),
                        block_tokens(bytes@, (curr_i + 2) as nat),
                    );
                }
                add_token(&mut tokens, &mut pos, curr_i, 2, TokenType::StatementBegin);
                if !tokenize_jinja(&mut tokens, bytes, &mut pos) {
                    return None;
                }
            } else if peek_is(bytes, curr_i + 1, 35) {
                pos = curr_i + 2;
                tokenize_comment(&mut tokens, bytes, &mut pos, curr_i);
            }
        }
    }
}

/// The tokens of a template that ends outside any `{{` or `{%` block and
/// whose numbers in such blocks are numbers.
pub fn tokenize(content: &str) -> (r: Result<Vec<Token>, Vec<Diag>>)
    requires
        template_tokens(content.spec_bytes()) is Some,
    ensures
        r matches Ok(tokens) && template_tokens(content.spec_bytes()) == Some(tokens@),
{
    match try_tokenize(content) {
        Some(tokens) => Ok(tokens),
        None => unreached(),
    }
}

} // verus!
