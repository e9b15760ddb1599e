//! A verified parser for Hunspell-style affix files.
//!
//! The parser turns the text of an affix file into an ordered sequence of
//! [`types::AffixNode`] values, or a single [`error::ParseError`] naming the
//! first offending line.  Every executable function is specified against a
//! mathematical grammar over `Seq<char>`, so parsing is proved deterministic
//! and total: no input makes the library panic.

pub mod error;
pub mod scan;
pub mod types;
pub mod coerce;
pub mod validate;
pub mod table;
pub mod rules;
pub mod rows;
pub mod directives;
pub mod parser;
pub mod laws;
pub mod kv;
