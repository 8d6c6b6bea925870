use vstd::prelude::*;
use crate::reader::{ByteReader, ChunkError};

verus! {

/// A path chunk. The format reserves it and gives it no fields, so its whole
/// payload is kept as bytes.
pub struct PathChunk {
    pub data: Vec<u8>,
}

/// The payload bytes of a path chunk of `chunk_size` bytes (header included)
/// whose payload starts at `p`, and the position just past them.
pub open spec fn parse_path(s: Seq<u8>, p: int, chunk_size: int) -> Option<(Seq<u8>, int)> {
    if chunk_size >= 6 && p + chunk_size - 6 <= s.len() {
        Some((s.subrange(p, p + chunk_size - 6), p + chunk_size - 6))
    } else {
        None
    }
}

impl PathChunk {
    /// Decodes a path payload at the reader's position; `chunk_size` is the
    /// chunk's declared size, which sizes the payload.
    pub fn from_read(read: &mut ByteReader, chunk_size: u32) -> (r: Result<PathChunk, ChunkError>)
        ensures
            final(read).data@ == old(read).data@,
            match r {
                Ok(c) => parse_path(old(read).data@, old(read).pos as int, chunk_size as int)
                    == Some((c.data@, final(read).pos as int)),
                Err(e) => parse_path(old(read).data@, old(read).pos as int, chunk_size as int)
                    == None::<(Seq<u8>, int)> && e == ChunkError::StreamRead,
            },
    {
        if chunk_size < 6 {
            return Err(ChunkError::StreamRead);
        }
        let data = read.read_bytes_u64((chunk_size - 6) as u64)?;
        Ok(PathChunk { data })
    }
}

} // verus!
