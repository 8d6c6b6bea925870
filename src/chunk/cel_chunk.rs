use vstd::prelude::*;
use crate::reader::{ByteReader, ChunkError, Header, i16_at, u16_at, u32_at};

verus! {

/// What a cel holds, by cel type.
pub enum CelContent {
    /// Type 0: uncompressed pixels, row by row.
    Raw { width: u16, height: u16, pixels: Vec<u8> },
    /// Type 1: the cel of another frame is shown here.
    Linked { frame_position: u16 },
    /// Type 2: zlib-compressed pixels, kept compressed.
    Compressed { width: u16, height: u16, data: Vec<u8> },
    /// Type 3: zlib-compressed tiles, kept compressed.
    CompressedTilemap {
        width: u16,
        height: u16,
        bits_per_tile: u16,
        tile_id_mask: u32,
        x_flip_mask: u32,
        y_flip_mask: u32,
        diagonal_flip_mask: u32,
        data: Vec<u8>,
    },
    /// Any other type: the rest of the chunk as bytes.
    Unknown { data: Vec<u8> },
}

/// What a [`CelContent`] holds, as mathematical values.
pub enum CelContentModel {
    Raw { width: u16, height: u16, pixels: Seq<u8> },
    Linked { frame_position: u16 },
    Compressed { width: u16, height: u16, data: Seq<u8> },
    CompressedTilemap {
        width: u16,
        height: u16,
        bits_per_tile: u16,
        tile_id_mask: u32,
        x_flip_mask: u32,
        y_flip_mask: u32,
        diagonal_flip_mask: u32,
        data: Seq<u8>,
    },
    Unknown { data: Seq<u8> },
}

impl View for CelContent {
    type V = CelContentModel;

    open spec fn view(&self) -> CelContentModel {
        match self {
            CelContent::Raw { width, height, pixels } => CelContentModel::Raw {
                width: *width,
                height: *height,
                pixels: pixels@,
            },
            CelContent::Linked { frame_position } => CelContentModel::Linked {
                frame_position: *frame_position,
            },
            CelContent::Compressed { width, height, data } => CelContentModel::Compressed {
                width: *width,
                height: *height,
                data: data@,
            },
            CelContent::CompressedTilemap {
                width,
                height,
                bits_per_tile,
                tile_id_mask,
                x_flip_mask,
                y_flip_mask,
                diagonal_flip_mask,
                data,
            } => CelContentModel::CompressedTilemap {
                width: *width,
                height: *height,
                bits_per_tile: *bits_per_tile,
                tile_id_mask: *tile_id_mask,
                x_flip_mask: *x_flip_mask,
                y_flip_mask: *y_flip_mask,
                diagonal_flip_mask: *diagonal_flip_mask,
                data: data@,
            },
            CelContent::Unknown { data } => CelContentModel::Unknown { data: data@ },
        }
    }
}

/// A cel chunk: the image of one layer in one frame.
pub struct CelChunk {
    pub layer_index: u16,
    pub x_position: i16,
    pub y_position: i16,
    pub opacity: u8,
    pub cel_type: u16,
    pub z_index: i16,
    pub content: CelContent,
}

/// What a [`CelChunk`] holds, as mathematical values.
pub struct CelModel {
    pub layer_index: u16,
    pub x_position: i16,
    pub y_position: i16,
    pub opacity: u8,
    pub cel_type: u16,
    pub z_index: i16,
    pub content: CelContentModel,
}

impl View for CelChunk {
    type V = CelModel;

    open spec fn view(&self) -> CelModel {
        CelModel {
            layer_index: self.layer_index,
            x_position: self.x_position,
            y_position: self.y_position,
            opacity: self.opacity,
            cel_type: self.cel_type,
            z_index: self.z_index,
            content: self.content@,
        }
    }
}

/// The content of a cel of type `cel_type` at `q`, in a chunk of `chunk_size`
/// bytes whose first 22 bytes (header and cel fields) precede `q`. Compressed
/// and unknown contents run to the end of the chunk.
pub open spec fn parse_cel_content(
    s: Seq<u8>,
    q: int,
    cel_type: int,
    chunk_size: int,
    header: Header,
) -> Option<(CelContentModel, int)> {
    if cel_type == 0 {
        let n = u16_at(s, q) * u16_at(s, q + 2) * header.spec_bytes_per_pixel();
        if q + 4 <= s.len() && q + 4 + n <= s.len() {
            Some(
                (
                    CelContentModel::Raw {
                        width: u16_at(s, q) as u16,
                        height: u16_at(s, q + 2) as u16,
                        pixels: s.subrange(q + 4, q + 4 + n),
                    },
                    q + 4 + n,
                ),
            )
        } else {
            None
        }
    } else if cel_type == 1 {
        if q + 2 <= s.len() {
            Some((CelContentModel::Linked { frame_position: u16_at(s, q) as u16 }, q + 2))
        } else {
            None
        }
    } else if cel_type == 2 {
        let n = chunk_size - 26;
        if q + 4 <= s.len() && n >= 0 && q + 4 + n <= s.len() {
            Some(
                (
                    CelContentModel::Compressed {
                        width: u16_at(s, q) as u16,
                        height: u16_at(s, q + 2) as u16,
                        data: s.subrange(q + 4, q + 4 + n),
                    },
                    q + 4 + n,
                ),
            )
        } else {
            None
        }
    } else if cel_type == 3 {
        let n = chunk_size - 54;
        if q + 32 <= s.len() && n >= 0 && q + 32 + n <= s.len() {
            Some(
                (
                    CelContentModel::CompressedTilemap {
                        width: u16_at(s, q) as u16,
                        height: u16_at(s, q + 2) as u16,
                        bits_per_tile: u16_at(s, q + 4) as u16,
                        tile_id_mask: u32_at(s, q + 6) as u32,
                        x_flip_mask: u32_at(s, q + 10) as u32,
                        y_flip_mask: u32_at(s, q + 14) as u32,
                        diagonal_flip_mask: u32_at(s, q + 18) as u32,
                        data: s.subrange(q + 32, q + 32 + n),
                    },
                    q + 32 + n,
                ),
            )
        } else {
            None
        }
    } else {
        let n = chunk_size - 22;
        if n >= 0 && q + n <= s.len() {
            Some((CelContentModel::Unknown { data: s.subrange(q, q + n) }, q + n))
        } else {
            None
        }
    }
}

/// The cel record whose payload starts at `p`, and the position just past it.
/// Layout: layer index (u16), x, y (i16), opacity (u8), cel type (u16),
/// z-index (i16), 5 reserved bytes, then the content.
pub open spec fn parse_cel(s: Seq<u8>, p: int, chunk_size: int, header: Header) -> Option<
    (CelModel, int),
> {
    if p + 16 <= s.len() {
        match parse_cel_content(s, p + 16, u16_at(s, p + 7), chunk_size, header) {
            Some((content, q)) => Some(
                (
                    CelModel {
                        layer_index: u16_at(s, p) as u16,
                        x_position: i16_at(s, p + 2) as i16,
                        y_position: i16_at(s, p + 4) as i16,
                        opacity: s[p + 6],
                        cel_type: u16_at(s, p + 7) as u16,
                        z_index: i16_at(s, p + 9) as i16,
                        content,
                    },
                    q,
                ),
            ),
            None => None,
        }
    } else {
        None
    }
}

/// Bytes of the raw pixels of a `width` by `height` cel at the header's depth.
pub fn raw_pixel_len(width: u16, height: u16, header: &Header) -> (r: u64)
    ensures
        r as int == width as int * height as int * header.spec_bytes_per_pixel(),
{
    let bpp: u64 = (header.color_depth / 8) as u64;
    let w: u64 = width as u64;
    let h: u64 = height as u64;
    assert(w * h <= 0xFFFF * 0xFFFF) by (nonlinear_arith)
        requires
            w <= 0xFFFF,
            h <= 0xFFFF,
    ;
    let area: u64 = w * h;
    assert(area * bpp <= 0xFFFF_FFFF * 0xFFFF) by (nonlinear_arith)
        requires
            area <= 0xFFFF_FFFF,
            bpp <= 0xFFFF,
    ;
    area * bpp
}

impl CelContent {
    /// Decodes the content of a cel of type `cel_type`; `chunk_size` is the
    /// declared size of the chunk, 22 bytes of which precede the reader.
    pub fn from_read(read: &mut ByteReader, cel_type: u16, chunk_size: u32, header: &Header) -> (r:
        Result<CelContent, ChunkError>)
        ensures
            final(read).data@ == old(read).data@,
            match r {
                Ok(c) => parse_cel_content(
                    old(read).data@,
                    old(read).pos as int,
                    cel_type as int,
                    chunk_size as int,
                    *header,
                ) == Some((c@, final(read).pos as int)),
                Err(e) => parse_cel_content(
                    old(read).data@,
                    old(read).pos as int,
                    cel_type as int,
                    chunk_size as int,
                    *header,
                ) == None::<(CelContentModel, int)> && e == ChunkError::StreamRead,
            },
    {
        if cel_type == 0 {
            let width = read.read_u16()?;
            let height = read.read_u16()?;
            let pixels = read.read_bytes_u64(raw_pixel_len(width, height, header))?;
            Ok(CelContent::Raw { width, height, pixels })
        } else if cel_type == 1 {
            let frame_position = read.read_u16()?;
            Ok(CelContent::Linked { frame_position })
        } else if cel_type == 2 {
            let width = read.read_u16()?;
            let height = read.read_u16()?;
            if chunk_size < 26 {
                return Err(ChunkError::StreamRead);
            }
            let data = read.read_bytes_u64((chunk_size - 26) as u64)?;
            Ok(CelContent::Compressed { width, height, data })
        } else if cel_type == 3 {
            let width = read.read_u16()?;
            let height = read.read_u16()?;
            let bits_per_tile = read.read_u16()?;
            let tile_id_mask = read.read_u32()?;
            let x_flip_mask = read.read_u32()?;
            let y_flip_mask = read.read_u32()?;
            let diagonal_flip_mask = read.read_u32()?;
            read.skip(10)?;
            if chunk_size < 54 {
                return Err(ChunkError::StreamRead);
            }
            let data = read.read_bytes_u64((chunk_size - 54) as u64)?;
            Ok(
                CelContent::CompressedTilemap {
                    width,
                    height,
                    bits_per_tile,
                    tile_id_mask,
                    x_flip_mask,
                    y_flip_mask,
                    diagonal_flip_mask,
                    data,
                },
            )
        } else {
            if chunk_size < 22 {
                return Err(ChunkError::StreamRead);
            }
            let data = read.read_bytes_u64((chunk_size - 22) as u64)?;
            Ok(CelContent::Unknown { data })
        }
    }
}

impl CelChunk {
    /// Decodes a cel payload at the reader's position; `chunk_size` is the
    /// chunk's declared size, which sizes compressed content, and the header's
    /// color depth sizes raw pixels.
    pub fn from_read(read: &mut ByteReader, chunk_size: u32, header: &Header) -> (r: Result<
        CelChunk,
        ChunkError,
    >)
        ensures
            final(read).data@ == old(read).data@,
            match r {
                Ok(c) => parse_cel(old(read).data@, old(read).pos as int, chunk_size as int, *header)
                    == Some((c@, final(read).pos as int)),
                Err(e) => parse_cel(
                    old(read).data@,
                    old(read).pos as int,
                    chunk_size as int,
                    *header,
                ) == None::<(CelModel, int)> && e == ChunkError::StreamRead,
            },
    {
        let layer_index = read.read_u16()?;
        let x_position = read.read_i16()?;
        let y_position = read.read_i16()?;
        let opacity = read.read_u8()?;
        let cel_type = read.read_u16()?;
        let z_index = read.read_i16()?;
        read.skip(5)?;
        let content = CelContent::from_read(read, cel_type, chunk_size, header)?;
        Ok(CelChunk { layer_index, x_position, y_position, opacity, cel_type, z_index, content })
    }
}

} // verus!
