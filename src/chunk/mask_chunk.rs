use vstd::prelude::*;
use crate::reader::{ByteReader, ChunkError, i16_at, u16_at, string_at};

verus! {

/// A mask chunk: a named 1-bit bitmap placed on the canvas.
pub struct MaskChunk {
    pub x_position: i16,
    pub y_position: i16,
    pub width: u16,
    pub height: u16,
    pub mask_name: String,
    /// One bit per pixel, row by row, each row padded to a whole byte.
    pub bitmap_data: Vec<u8>,
}

/// What a [`MaskChunk`] holds, as mathematical values.
pub struct MaskModel {
    pub x_position: i16,
    pub y_position: i16,
    pub width: u16,
    pub height: u16,
    pub mask_name: Seq<char>,
    pub bitmap_data: Seq<u8>,
}

impl View for MaskChunk {
    type V = MaskModel;

    open spec fn view(&self) -> MaskModel {
        MaskModel {
            x_position: self.x_position,
            y_position: self.y_position,
            width: self.width,
            height: self.height,
            mask_name: self.mask_name@,
            bitmap_data: self.bitmap_data@,
        }
    }
}

/// Bytes of a mask bitmap: each of `height` rows takes `width` bits rounded up
/// to whole bytes, as the file format documents it (`height*((width+7)/8)`).
pub open spec fn mask_bitmap_len(width: int, height: int) -> int {
    height * ((width + 7) / 8)
}

/// The mask record whose payload starts at `p`, and the position just past it.
/// Layout: x, y (i16), width, height (u16), 8 reserved bytes, name, bitmap.
pub open spec fn parse_mask(s: Seq<u8>, p: int) -> Option<(MaskModel, int)> {
    if p + 16 <= s.len() {
        match string_at(s, p + 16) {
            Some((name, q)) => {
                let n = mask_bitmap_len(u16_at(s, p + 4), u16_at(s, p + 6));
                if q + n <= s.len() {
                    Some(
                        (
                            MaskModel {
                                x_position: i16_at(s, p) as i16,
                                y_position: i16_at(s, p + 2) as i16,
                                width: u16_at(s, p + 4) as u16,
                                height: u16_at(s, p + 6) as u16,
                                mask_name: name,
                                bitmap_data: s.subrange(q, q + n),
                            },
                            q + n,
                        ),
                    )
                } else {
                    None
                }
            },
            None => None,
        }
    } else {
        None
    }
}

/// Bytes of the bitmap of a `width` by `height` mask.
pub fn bitmap_len(width: u16, height: u16) -> (r: usize)
    ensures
        r as int == mask_bitmap_len(width as int, height as int),
{
    let row: u32 = (width as u32 + 7) / 8;
    assert(row * (height as u32) <= 8192 * 65535) by (nonlinear_arith)
        requires
            row <= 8192,
    ;
    let n: u32 = row * height as u32;
    assert(n as int == (height as int) * row as int) by (nonlinear_arith)
        requires
            n == row * (height as u32),
            row * (height as u32) <= 8192 * 65535,
    ;
    n as usize
}

impl MaskChunk {
    /// Decodes a mask payload at the reader's position.
    pub fn from_read(read: &mut ByteReader) -> (r: Result<MaskChunk, ChunkError>)
        ensures
            final(read).data@ == old(read).data@,
            match r {
                Ok(m) => parse_mask(old(read).data@, old(read).pos as int) == Some(
                    (m@, final(read).pos as int),
                ),
                Err(e) => parse_mask(old(read).data@, old(read).pos as int) == None::<
                    (MaskModel, int),
                > && e == ChunkError::StreamRead,
            },
    {
        let x_position = read.read_i16()?;
        let y_position = read.read_i16()?;
        let width = read.read_u16()?;
        let height = read.read_u16()?;
        read.skip(8)?;
        let mask_name = read.read_string()?;
        let bitmap_data = read.read_bytes(bitmap_len(width, height))?;
        Ok(MaskChunk { x_position, y_position, width, height, mask_name, bitmap_data })
    }
}

} // verus!
