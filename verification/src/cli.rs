//! Command-line input helpers.

pub mod error;
pub mod input;
pub mod laws;
pub mod outcome;
pub mod source;
pub mod terminal;

pub use error::{ErrorKind, Failure, InputReadError};
pub use input::{Claimy, Input};
pub use source::{Answer, Draws, Reader};
