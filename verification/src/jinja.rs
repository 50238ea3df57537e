pub mod jinja_ast;
pub mod jinja_lexer;

pub use jinja_ast::{Ident, JinjaExpression, JinjaMacro, JinjaStatement};
pub use jinja_lexer::{tokenize, try_tokenize, Token, TokenType};
