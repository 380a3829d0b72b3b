//! Turns roff-formatted documents, such as manual pages, into plain text.
//!
//! A [`Deroffer`] reads a document line by line. Requests (lines that start
//! with a `.` or a `'`) and escapes (a backslash and what follows it) are
//! dropped or replaced by what they stand for; words, numbers and the text
//! of special characters are kept. What the scanner does is stated over
//! [`Env`], the state of a run as mathematics: each function of the scanner
//! takes the state to the one that the function of the same name in `model`,
//! `requests`, `table` or `driver` gives.
//!
//! - `chars`: character classes, runs, and strings as character vectors
//! - `cursor`: the line being read and the place reached in it
//! - `glyphs`: the tables of special characters
//! - `registers`: the string registers
//! - `util`: the translation table, and the decoding of raw bytes
//! - `output`: the collapsing of long runs of newlines
//! - `model`: the state of a run and what each recognizer makes of it
//! - `deroff`: the scanner and its basic steps
//! - `scan`: the recognizers
//! - `requests`: the requests
//! - `table`: the lines of a table
//! - `driver`: lines and whole documents
//! - `progress`: scanning comes to an end
//! - `laws`: what holds of the scanner whatever the document
pub mod chars;
pub mod cursor;
pub mod deroff;
pub mod driver;
pub mod glyphs;
pub mod laws;
pub mod model;
pub mod output;
pub mod progress;
pub mod registers;
pub mod requests;
pub mod scan;
pub mod table;
pub mod util;

pub use deroff::Deroffer;
pub use model::{Env, Flag, TblState};
pub use util::{decode_bytes, TranslationTable};
