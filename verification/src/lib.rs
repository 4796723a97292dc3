//! A read-only inventory of the functions, structs and enums that a tree of
//! Rust source files declares.
//!
//! The heart of the crate is the declaration visitor in [`visitor`]: it walks
//! a syntax tree in pre-order and records every function, struct and enum
//! item, wherever it is nested. The tree it walks is the plain syntax model
//! of [`syntax`]; [`reader`] parses source text with `syn` and reads the
//! parser's items into that model, and [`builder`] assembles the model from
//! the events of a walk over the parser's tree. [`record`] holds the records
//! and prints them, with token text brought to canonical spacing by
//! [`normalize`]; [`report`] lays out the report of a file; [`scan`] decides
//! which directory entries are read and what each file adds to the output of
//! a scan.
//!
//! Walking directories, reading files and printing are left to the caller.

pub mod builder;
pub mod normalize;
pub mod payload;
pub mod reader;
pub mod record;
pub mod report;
pub mod scan;
pub mod syntax;
pub mod text;
pub mod visitor;
