//! Decoding of the chunks that make up the frames of an Aseprite image file.
//!
//! A chunk is read from a [`reader::ByteReader`] positioned at its first byte;
//! every decoder states, over the reader's bytes, exactly which record it
//! returns and where it leaves the reader.

pub mod reader;
pub mod chunk;

pub use reader::{ByteReader, ChunkError, Header};
