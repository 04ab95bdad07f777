//! Markdown reference documentation for the Arucas standard library,
//! generated from a JSON description of its classes and extensions.

pub mod doc_parser;
pub mod document;
pub mod error;
pub mod json;
pub mod laws;
pub mod markdown;
pub mod records;
pub mod schema;
pub mod text;

pub use doc_parser::DocParser;
pub use error::DocError;
pub use records::{Class, Constructor, Function, Member, Param, Return};
pub use schema::FromJson;
