//! Cross-reference checking for LaTeX sources.
//!
//! A scan reads the lines of a set of documents and collects four kinds of
//! token: the labels and the bibliography entries that the documents declare,
//! and the references and citations that use them. When all lines are read,
//! every declaration that nothing uses is reported in a line of text.
//!
//! - [`kind`] names the four kinds of token and the pattern of each.
//! - [`matcher`] compiles a pattern and extracts the tokens of a line.
//! - [`patterns`] holds the compiled patterns of a run.
//! - [`reconcile`] finds the declarations that nothing uses.
//! - [`usage`] collects the tokens of lines and files and writes the report.
//!
//! Reading directories and files and printing the report are left to the
//! caller.

pub mod kind;
pub mod matcher;
pub mod patterns;
pub mod reconcile;
pub mod usage;

pub use kind::TokenKind;
pub use matcher::{pattern_extraction, Pattern, PatternError};
pub use patterns::{PatternFailure, Patterns};
pub use reconcile::{check_used, diagnostic_line, is_used};
pub use usage::{
    ends_with, is_document_name, usage_check, SourceFile, Usage, DOCUMENT_EXTENSION,
};
