//! Converts tabular records into bibliographic database entries.
//!
//! The heart of the crate is a field-mapping template engine: a mapping from
//! output field names to template strings with `[[key]]` placeholders is
//! resolved against one input row at a time, producing a typed bibliography
//! entry whose fields are tagged as normally escaped or verbatim.
//!
//! Reading the delimited input and writing the output file are left to the
//! surrounding application; the modules here cover the mapping configuration,
//! the substitution engine, the conversion of one row into one entry, the
//! serialization buffers, and the per-row orchestration policy.

pub mod bib;
pub mod config;
pub mod converter;
pub mod entry;
pub mod runner;
pub mod strmap;
pub mod template;
pub mod text;
pub mod writer;
