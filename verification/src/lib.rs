//! Decoding, double-speed transformation and byte-exact encoding of
//! uncompressed PCM WAV files held in memory.
//!
//! A file is three chunks in a fixed order: a twelve-byte header, a
//! twenty-four-byte format subchunk, and a data subchunk that runs to
//! the end. [`Wav::new`] decodes a buffer, [`Wav::double_speed`] drops
//! every second frame of four bytes, and [`Wav::write_contents`] encodes
//! the file again. The contracts speak of the views of these types and
//! of the spec functions `decoding` and `encoding` on them; the module
//! `laws` proves how those relate.

pub mod data;
pub mod endian;
pub mod error;
pub mod format;
pub mod laws;
pub mod operation;
pub mod riff;
pub mod tag;
pub mod wav;

pub use crate::data::DataSubchunk;
pub use crate::endian::read_buffer_as_u16;
pub use crate::endian::read_buffer_as_u32;
pub use crate::error::WavError;
pub use crate::format::FormatSubchunk;
pub use crate::operation::Mode;
pub use crate::operation::Operation;
pub use crate::operation::Performance;
pub use crate::riff::RiffHeader;
pub use crate::wav::Wav;
