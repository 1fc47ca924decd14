//! Generation and formatting of RFC 4122 universally unique identifiers.

pub mod generate;
pub mod options;
pub mod text;
pub mod uuid;
