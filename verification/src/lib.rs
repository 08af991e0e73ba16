//! A tiny command language: a lexer, a recursive-descent parser and a tree
//! evaluator that turn one line of typed text into a sequence of structured
//! application commands, together with the window-manager state that consumes
//! those commands.

pub mod token;
pub mod lexer;
pub mod node;
pub mod parser;
pub mod eval;
pub mod key;
pub mod text;
pub mod empty;
pub mod filemanager;
pub mod window;
pub mod appstate;
