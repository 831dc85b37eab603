//! Line input with validation and bounded retry.
//!
//! A [`cli::Input`] wraps a source of text lines and offers three ways to
//! read from it: a plain read, a read that a validator must accept, and a
//! read that is repeated until the validator accepts a line or the allowed
//! number of attempts is used up.

pub mod cli;
