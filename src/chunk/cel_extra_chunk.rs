use vstd::prelude::*;
use crate::reader::{ByteReader, ChunkError, i32_at, u32_at};

verus! {

/// A cel extra chunk: the precise bounds of the cel before it.
/// The four bounds are 16.16 fixed-point values.
pub struct CelExtraChunk {
    pub flags: u32,
    pub precise_x: i32,
    pub precise_y: i32,
    pub width: i32,
    pub height: i32,
}

/// The cel extra record whose payload starts at `p`, and the position just past
/// it. Layout: flags (u32), four i32 bounds, 16 reserved bytes.
pub open spec fn parse_cel_extra(s: Seq<u8>, p: int) -> Option<(CelExtraChunk, int)> {
    if p + 36 <= s.len() {
        Some(
            (
                CelExtraChunk {
                    flags: u32_at(s, p) as u32,
                    precise_x: i32_at(s, p + 4) as i32,
                    precise_y: i32_at(s, p + 8) as i32,
                    width: i32_at(s, p + 12) as i32,
                    height: i32_at(s, p + 16) as i32,
                },
                p + 36,
            ),
        )
    } else {
        None
    }
}

impl CelExtraChunk {
    /// Decodes a cel extra payload at the reader's position.
    pub fn from_read(read: &mut ByteReader) -> (r: Result<CelExtraChunk, ChunkError>)
        ensures
            final(read).data@ == old(read).data@,
            match r {
                Ok(c) => parse_cel_extra(old(read).data@, old(read).pos as int) == Some(
                    (c, final(read).pos as int),
                ),
                Err(e) => parse_cel_extra(old(read).data@, old(read).pos as int) == None::<
                    (CelExtraChunk, int),
                > && e == ChunkError::StreamRead,
            },
    {
        let flags = read.read_u32()?;
        let precise_x = read.read_i32()?;
        let precise_y = read.read_i32()?;
        let width = read.read_i32()?;
        let height = read.read_i32()?;
        read.skip(16)?;
        Ok(CelExtraChunk { flags, precise_x, precise_y, width, height })
    }
}

} // verus!
