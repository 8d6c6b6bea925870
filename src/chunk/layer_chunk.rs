use vstd::prelude::*;
use crate::reader::{ByteReader, ChunkError, u16_at, u32_at, string_at};

verus! {

/// A layer chunk: one layer of the sprite, in the order of the layer stack.
pub struct LayerChunk {
    pub flags: u16,
    /// 0 for an image layer, 1 for a group, 2 for a tilemap.
    pub layer_type: u16,
    pub child_level: u16,
    pub default_width: u16,
    pub default_height: u16,
    pub blend_mode: u16,
    pub opacity: u8,
    pub layer_name: String,
    /// The tileset of a tilemap layer.
    pub tileset_index: Option<u32>,
}

/// What a [`LayerChunk`] holds, as mathematical values.
pub struct LayerModel {
    pub flags: u16,
    pub layer_type: u16,
    pub child_level: u16,
    pub default_width: u16,
    pub default_height: u16,
    pub blend_mode: u16,
    pub opacity: u8,
    pub layer_name: Seq<char>,
    pub tileset_index: Option<u32>,
}

impl View for LayerChunk {
    type V = LayerModel;

    open spec fn view(&self) -> LayerModel {
        LayerModel {
            flags: self.flags,
            layer_type: self.layer_type,
            child_level: self.child_level,
            default_width: self.default_width,
            default_height: self.default_height,
            blend_mode: self.blend_mode,
            opacity: self.opacity,
            layer_name: self.layer_name@,
            tileset_index: self.tileset_index,
        }
    }
}

/// The layer record whose payload starts at `p`, and the position just past it.
/// Layout: six u16 fields, opacity, 3 reserved bytes, name, and for a tilemap
/// layer a u32 tileset index.
pub open spec fn parse_layer(s: Seq<u8>, p: int) -> Option<(LayerModel, int)> {
    if p + 16 <= s.len() {
        match string_at(s, p + 16) {
            Some((name, q)) => {
                let tilemap = u16_at(s, p + 2) == 2;
                if tilemap && q + 4 > s.len() {
                    None
                } else {
                    Some(
                        (
                            LayerModel {
                                flags: u16_at(s, p) as u16,
                                layer_type: u16_at(s, p + 2) as u16,
                                child_level: u16_at(s, p + 4) as u16,
                                default_width: u16_at(s, p + 6) as u16,
                                default_height: u16_at(s, p + 8) as u16,
                                blend_mode: u16_at(s, p + 10) as u16,
                                opacity: s[p + 12],
                                layer_name: name,
                                tileset_index: if tilemap {
                                    Some(u32_at(s, q) as u32)
                                } else {
                                    None
                                },
                            },
                            if tilemap {
                                q + 4
                            } else {
                                q
                            },
                        ),
                    )
                }
            },
            None => None,
        }
    } else {
        None
    }
}

impl LayerChunk {
    /// Decodes a layer payload at the reader's position.
    pub fn from_read(read: &mut ByteReader) -> (r: Result<LayerChunk, ChunkError>)
        ensures
            final(read).data@ == old(read).data@,
            match r {
                Ok(c) => parse_layer(old(read).data@, old(read).pos as int) == Some(
                    (c@, final(read).pos as int),
                ),
                Err(e) => parse_layer(old(read).data@, old(read).pos as int) == None::<
                    (LayerModel, int),
                > && e == ChunkError::StreamRead,
            },
    {
        let flags = read.read_u16()?;
        let layer_type = read.read_u16()?;
        let child_level = read.read_u16()?;
        let default_width = read.read_u16()?;
        let default_height = read.read_u16()?;
        let blend_mode = read.read_u16()?;
        let opacity = read.read_u8()?;
        read.skip(3)?;
        let layer_name = read.read_string()?;
        let tileset_index = if layer_type == 2 {
            Some(read.read_u32()?)
        } else {
            None
        };
        Ok(
            LayerChunk {
                flags,
                layer_type,
                child_level,
                default_width,
                default_height,
                blend_mode,
                opacity,
                layer_name,
                tileset_index,
            },
        )
    }
}

} // verus!
