//! A launcher of named shortcuts: short names stand for filesystem paths, the
//! table of names is kept between runs, and a name given on the command line
//! opens its path with the desktop's default handler.
//!
//! This crate holds the rules: the table itself, how an argument list selects an
//! operation, what each operation does to the table, and every line of text the
//! program prints. Reading and writing files, finding the working directory and
//! starting processes are left to the program around it.

pub mod dispatch;
pub mod laws;
pub mod launcher;
pub mod store;
pub mod text;
