//! Spectre: a small expression language over mathematical Unicode notation.
//!
//! Source text is tokenized by [`Lexer`], parsed into a [`Node`] tree by
//! [`Parser`], and evaluated by [`Interpreter`], one transition at a time.
//! Real arithmetic is left to the host: the interpreter asks for it with a
//! [`Request`] and goes on with the answer.

pub mod arith;
pub mod builtins;
pub mod display;
pub mod error;
pub mod eval;
pub mod glyphs;
pub mod grammar;
pub mod lexer;
pub mod machine;
pub mod node;
pub mod numeric;
pub mod parser;
pub mod position;
pub mod precedence;
pub mod roundtrip;
pub mod scope;
pub mod text;
pub mod token;
pub mod unfold;
pub mod value;

pub use error::SpectreError;
pub use lexer::{tokenize, Lexer};
pub use machine::{Control, Frame, Interpreter, Request};
pub use node::{BinaryOp, Node, UnaryOp};
pub use numeric::{Comparison, Failure, Native, Outcome, Real, RealFn, RealOp, Scalar, Test};
pub use parser::{parse, Parser};
pub use position::Position;
pub use scope::Scope;
pub use token::{Symbol, Token, TokenType};
pub use value::{EvalError, Value};
