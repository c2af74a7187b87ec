//! A SQL-like language for inspecting a machine and, under guard rails,
//! changing it: the parser, the validator, the interpreter's decisions, the
//! session context, the container registry and the change detection of the
//! live monitor.

pub mod actions;
pub mod ast;
pub mod bridge;
pub mod container;
pub mod content;
pub mod context;
pub mod display;
pub mod engine;
pub mod error;
pub mod explain;
pub mod fields;
pub mod filters;
pub mod lexer;
pub mod life;
pub mod listing;
pub mod machine;
pub mod number;
pub mod output;
pub mod parser;
pub mod policy;
pub mod render;
pub mod repl;
pub mod results;
pub mod script;
pub mod size;
pub mod statements;
pub mod syntax;
pub mod text;
pub mod validator;
