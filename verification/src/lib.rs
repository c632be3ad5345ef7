//! Identities for the semantic layer of a compiler front end.
//!
//! Every item definition and every macro call in a program gets a small
//! integer id that stands for its location: the same id whenever the same
//! location is met again, and the location back whenever the id is asked
//! about. A file, too, has an identity, and it need not be text on disk:
//! the output of a macro call is a file named by the id of the call. Such
//! a call may itself sit in the output of another call, and so on; the way
//! back always ends at a real file.
//!
//! The library decides and remembers; it does not parse, index syntax
//! nodes or run macro rules. Where one of these is needed, it says what is
//! to be asked of whoever does them, and what the answer means.
//!
//! - [`location`]: the plain addresses that everything else is made of.
//! - [`intern`]: the deduplicating table, and what an id is.
//! - [`database`]: the tables of one session.
//! - [`hir_file`]: files that macros may have produced, and their origin.
//! - [`item`]: the ids of item definitions, one type for each kind of
//!   item, and what they share.
//! - [`expand`]: resolving a macro definition and expanding a call, step
//!   by step, with the bound on the size of the output.
//! - [`contents`]: the syntax of a file, and the empty file that stands in
//!   for a failed expansion.
//! - [`dump`]: the description of a macro call in a log line.
//! - [`text`]: the pieces that messages are put together from.
//! - [`laws`]: what holds in every session.

pub mod contents;
pub mod database;
pub mod dump;
pub mod expand;
pub mod hir_file;
pub mod intern;
pub mod item;
pub mod laws;
pub mod location;
pub mod text;
