//! Jotdown: a lightweight, Markdown-like block markup dialect.
//!
//! The crate recognizes the dialect and turns raw text into an ordered
//! sequence of typed block elements: paragraphs, titles/headings,
//! unordered lists, ordered lists, and checklists. The entry point is
//! [`parse_jotdown`]; it is total — every input string, however
//! degenerate, yields some (possibly empty) sequence of elements.

pub mod elem;
pub mod laws;
pub mod line;
pub mod machine;
pub mod parser;
pub mod text;

pub use elem::JdElement;
pub use parser::parse_jotdown;
