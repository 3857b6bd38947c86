//! A read-only inspector for SQLite databases.
//!
//! Given a snapshot of a database's catalog, this library rebuilds a
//! description of every table and view (columns, primary key, unique and
//! indexed columns, composite indexes, whole foreign keys, generated-column
//! expressions, virtual and shadow tables) and writes it as a report, or
//! writes a sample of the rows of one table. It also decides whether a
//! rendered text fits the terminal or goes to a pager.
//!
//! Every function is verified with Verus against the contract in its
//! signature. The library opens no file and runs no query: the caller reads
//! the catalog and hands it over as a [`catalog::Catalog`].

pub mod builder;
pub mod catalog;
pub mod descriptor;
pub mod dispatch;
pub mod escape;
pub mod foreign_key;
pub mod index;
pub mod keywords;
pub mod parse;
pub mod report;
pub mod sample;
pub mod size;
pub mod style;
pub mod table;
pub mod text;
