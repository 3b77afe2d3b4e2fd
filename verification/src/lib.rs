//! A UFO (Unified Font Object) source formatter library.
//!
//! A UFO bundle is a directory of XML/plist font source files. This library
//! normalizes such a bundle into a canonical textual form: it decides the
//! output path for a bundle, drives the font codec with the requested
//! indentation and XML-declaration quote style, filters the written tree for
//! the files that a quote post-pass may touch, rewrites XML-declaration
//! quotes at the byte level, and aggregates per-bundle outcomes into a batch
//! exit status.

pub mod codec;
pub mod dispatch;
pub mod errors;
pub mod formatters;
pub mod io;
pub mod quotes;
pub mod utils;
pub mod validators;
