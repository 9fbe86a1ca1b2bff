//! Core logic for two small text utilities: one numbers the lines of its
//! sources, the other prints a bounded prefix of each source by line count
//! or byte count.
//!
//! The library holds the pure policies: configuration selection, the
//! line-numbering transform with its fixed-width labels, the byte- and
//! line-bounded prefix transforms, and per-source header emission. Opening
//! files, reading streams and writing to standard output stay outside.

pub mod config;
pub mod numbering;
pub mod prefix;
