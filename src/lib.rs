//! Reassembly of Bigtable `ReadRows` cell chunks into complete rows.
//!
//! A `ReadRows` stream delivers rows as a sequence of small chunks: a row may
//! span several messages, a cell's value may be split over several chunks, and
//! the server may reset a row that is still being assembled. This crate folds
//! those chunks into rows, one chunk at a time, with every transition proved
//! against a mathematical model of the assembly state.

pub mod types;
pub mod assembler;
pub mod decoder;
pub mod lemmas;

pub use types::{Anomaly, CellChunk, CellView, RowCell, RowKey, RowStatus, TimeSpan};
pub use assembler::{AssemblyState, StateView, assemble};
pub use decoder::{DecodeError, Decoder};


