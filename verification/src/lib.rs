//! Decoding of RIFF/WAVE audio containers.
//!
//! The crate has two independent parts, meant to be used in sequence by a
//! caller that owns the underlying byte source:
//!
//! - [`header`]: decodes the fixed 44-byte prefix of a WAVE file into a
//!   structured [`header::WavHeader`] value;
//! - [`scan`]: walks the tag/length chunk list that follows the prefix and
//!   locates the first chunk carrying a given 4-byte tag.
//!
//! Both parts are pure functions over in-memory bytes; reading those bytes
//! from a file (and any I/O error handling) is the caller's business.

pub mod header;
pub mod le;
pub mod scan;
