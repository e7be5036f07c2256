//! A `cat`-like text display library: load a file's text and show it as is,
//! fully reversed, with its lines in reverse order, or with the characters of
//! each line reversed.
pub mod error;
pub mod file;
pub mod text;

pub use error::{Error, ErrorKind};
pub use file::{File, select_mode};
pub use text::{Mode, apply, reverse_chars_within_lines, reverse_lines, reverse_text};
