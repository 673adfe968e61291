//! Token parsing for the Oneil language.
pub mod error;
pub mod keyword;
pub mod literal;
pub mod naming;
pub mod note;
pub mod structure;
pub mod symbol;
pub mod util;

pub use util::Token;
