//! Scaffolding of single source files: a file name such as `demo.c` is
//! validated, resolved to a file type by its extension, and turned into the
//! text of a new file that opens with a banner naming author, file and date.
//!
//! The library reads nothing and writes nothing. The caller supplies the
//! arguments and the author, prints the lines that the library hands back
//! and writes the file that it plans. Two things come from outside: today's
//! date, from the clock, and whether the words for the terminal are
//! coloured, from the environment.

pub mod cli;
pub mod clock;
pub mod failure;
pub mod filetype;
pub mod listing;
pub mod paint;
pub mod plan;
pub mod request;
pub mod template;
pub mod text;
