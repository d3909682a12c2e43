//! Decision logic of a bundler's JavaScript plugin: which parser plugins a
//! module gets and in which order, how a module is parsed and scanned, how its
//! code is generated, and what its asset counterpart emits.
//!
//! Everything that the host supplies at run time (parser plugins, dependency
//! templates, the syntax-tree walker) comes in through traits. State that those
//! traits change is handed to them by value and handed back, so that a contract
//! can name the value before and after each call.

pub mod asset;
pub mod builtin_plugins;
pub mod eval_array;
pub mod generator;
pub mod graph;
pub mod lexer;
pub mod module_type;
pub mod options;
pub mod parse;
pub mod parse_meta;
pub mod parser;
pub mod plugin_context;
pub mod program;
pub mod render;
pub mod runtime_requirements;
pub mod scan;

