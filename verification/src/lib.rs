//! Byte-level decoding of TIFF-style Image File Directory (IFD) metadata as
//! embedded in JPEG files.
//!
//! The crate locates byte patterns inside a raw buffer, decodes 12-byte IFD
//! records into their little-endian fields, resolves a record's value through
//! an offset into the buffer, and renders bytes and records as hex or decimal
//! strings for diagnostics.

pub mod fmt;
pub mod parse;
pub mod record;
pub mod resolve;
pub mod search;
