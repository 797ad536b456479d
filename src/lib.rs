//! Command-dispatch core of a chat bot: a prefix tokenizer, a uniform
//! invocation context over text and structured invocations, typed argument
//! extraction, a command registry with alias lookup, response assembly and
//! the error-recovery state machine that wraps every command execution.

pub mod commands;
pub mod components;
pub mod config;
pub mod context;
pub mod definition;
pub mod dispatcher;
pub mod lyrics;
pub mod music;
pub mod number;
pub mod prefix_parser;
pub mod recovery;
pub mod response;
pub mod text;
