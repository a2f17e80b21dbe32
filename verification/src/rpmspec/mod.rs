//! RPM spec files: the macro table, the macro expander and the spec parser.
pub mod consumer;
pub mod expander;
pub mod expression;
pub mod lines;
pub mod macrospec;
pub mod model;
pub mod package;
pub mod parse;
pub mod parser;
pub mod patterns;
pub mod preamble;
pub mod query;
pub mod reader;
pub mod sectionparse;
pub mod sections;
pub mod spec;
pub mod table;
pub mod words;
