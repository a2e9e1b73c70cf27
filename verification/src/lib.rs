//! React Intl message ID generation and extraction.
//!
//! The library decides which React Intl messages a module declares, which ID
//! each message receives, and how the message descriptors are rewritten so that
//! they carry their IDs. The syntax tree it works on is a small model of the
//! JavaScript AST (see [`syntax`]); source text is parsed with SWC into that
//! model (see [`parse`]), and printing stays with the caller.

pub mod text;
pub mod paths;
pub mod hashing;
pub mod pattern;
pub mod types;
pub mod gen_path;
pub mod id_generator;
pub mod gen_id;
pub mod syntax;
pub mod ast_utils;
pub mod names;
pub mod ast_import;
pub mod project_root;
pub mod path_utils;
pub mod plugin_types;
pub mod plugin_utils;
pub mod ast_call;
pub mod ast_jsx;
pub mod ast_analysis;
pub mod ast_vars;
pub mod extractor;
pub mod js_api;
pub mod cli_visitors;
pub mod rewrite;
pub mod plugin_visitors;
pub mod swc_visitors;
pub mod auto_visitors;
pub mod simple_transform;
pub mod simple_utils;
pub mod message_extractor;
pub mod parse;
