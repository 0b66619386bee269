//! Configuration model for a tool that runs per-language linters and
//! formatters, resolves symbols with a tagging tool and drives an inline
//! AI assistant.

pub mod backend;
pub mod config;
pub mod defaults;
pub mod distinct;
pub mod document;
pub mod encode;
pub mod formatter;
pub mod linter;
pub mod lookup;
pub mod resolve;
pub mod tags;
pub mod text;
