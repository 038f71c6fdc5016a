//! Batch conversion of raster images between formats: the rules that decide
//! which files are converted, to what, with which encoder settings, and how
//! the run is summed up.
//!
//! - `names`: the extension filter and the name of the file that is written.
//! - `policy`: the quality bands that select a TIFF compression method.
//! - `adapter`: the adapter that an output type selects, and its settings.
//! - `raster`, `codec`: decoding a source and encoding it in memory.
//! - `backend`: the calls into the codec crates, which are trusted.
//! - `batch`: what the driver does with each entry, step by step.
//! - `stats`: the statistics that a batch returns.
//! - `error`: why the conversion of one file failed.
//!
//! The library touches no file. Its caller lists the directory, reads and
//! writes, and keeps the time.

pub mod adapter;
pub mod backend;
pub mod batch;
pub mod codec;
pub mod error;
pub mod names;
pub mod policy;
pub mod raster;
pub mod stats;
