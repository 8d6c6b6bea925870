//! The chunk envelope and the dispatch from a chunk's type tag to its decoder.

use vstd::prelude::*;
use crate::reader::{ByteReader, ChunkError, Header, u16_at, u32_at};

mod cel_chunk;
mod cel_extra_chunk;
mod color_profile_chunk;
mod frame_tags_chunk;
mod layer_chunk;
mod mask_chunk;
mod old_palette_chunk11;
mod old_palette_chunk4;
mod palette_chunk;
mod palette_packet;
mod path_chunk;
mod prefix;
mod slice_chunk;
mod user_data_chunk;

pub use self::cel_chunk::{
    CelChunk, CelContent, CelContentModel, CelModel, parse_cel, parse_cel_content, raw_pixel_len,
};
pub use self::cel_extra_chunk::{CelExtraChunk, parse_cel_extra};
pub use self::color_profile_chunk::{ColorProfileChunk, ColorProfileModel, parse_color_profile};
pub use self::frame_tags_chunk::{
    FrameTag, FrameTagModel, FrameTagsChunk, parse_frame_tag, parse_frame_tags,
    parse_frame_tags_chunk, tag_models,
};
pub use self::layer_chunk::{LayerChunk, LayerModel, parse_layer};
pub use self::mask_chunk::{MaskChunk, MaskModel, mask_bitmap_len, parse_mask, bitmap_len};
pub use self::old_palette_chunk11::OldPaletteChunk11;
pub use self::old_palette_chunk4::OldPaletteChunk4;
pub use self::palette_chunk::{
    PaletteChunk, PaletteEntry, PaletteEntryModel, PaletteModel, entry_models,
    palette_entry_count, parse_palette, parse_palette_entries, parse_palette_entry,
};
pub use self::palette_packet::{
    PacketColor, PalettePacket, PalettePacketModel, color_at, packet_color_count, packet_models,
    parse_packet, parse_packet_list, parse_packets, read_packet_list,
};
pub use self::path_chunk::{PathChunk, parse_path};
pub use self::prefix::lemma_payload_prefix;
pub use self::slice_chunk::{
    SliceCenter, SliceChunk, SliceKey, SliceModel, SlicePivot, parse_slice, parse_slice_key,
    parse_slice_keys, slice_key_len,
};
pub use self::user_data_chunk::{UserDataChunk, UserDataModel, parse_user_data};

verus! {

/// The payload of a chunk: one record kind per chunk type.
pub enum ChunkData {
    CelChunk(CelChunk),
    CelExtraChunk(CelExtraChunk),
    ColorProfileChunk(ColorProfileChunk),
    FrameTagsChunk(FrameTagsChunk),
    LayerChunk(LayerChunk),
    MaskChunk(MaskChunk),
    OldPaletteChunk4(OldPaletteChunk4),
    OldPaletteChunk11(OldPaletteChunk11),
    PaletteChunk(PaletteChunk),
    PathChunk(PathChunk),
    SliceChunk(SliceChunk),
    UserDataChunk(UserDataChunk),
}

/// What a [`ChunkData`] holds, as mathematical values.
pub enum ChunkDataModel {
    CelChunk(CelModel),
    CelExtraChunk(CelExtraChunk),
    ColorProfileChunk(ColorProfileModel),
    FrameTagsChunk(Seq<FrameTagModel>),
    LayerChunk(LayerModel),
    MaskChunk(MaskModel),
    OldPaletteChunk4(Seq<PalettePacketModel>),
    OldPaletteChunk11(Seq<PalettePacketModel>),
    PaletteChunk(PaletteModel),
    PathChunk(Seq<u8>),
    SliceChunk(SliceModel),
    UserDataChunk(UserDataModel),
}

impl View for ChunkData {
    type V = ChunkDataModel;

    open spec fn view(&self) -> ChunkDataModel {
        match self {
            ChunkData::CelChunk(c) => ChunkDataModel::CelChunk(c@),
            ChunkData::CelExtraChunk(c) => ChunkDataModel::CelExtraChunk(*c),
            ChunkData::ColorProfileChunk(c) => ChunkDataModel::ColorProfileChunk(c@),
            ChunkData::FrameTagsChunk(c) => ChunkDataModel::FrameTagsChunk(tag_models(c.tags@)),
            ChunkData::LayerChunk(c) => ChunkDataModel::LayerChunk(c@),
            ChunkData::MaskChunk(c) => ChunkDataModel::MaskChunk(c@),
            ChunkData::OldPaletteChunk4(c) => ChunkDataModel::OldPaletteChunk4(c@),
            ChunkData::OldPaletteChunk11(c) => ChunkDataModel::OldPaletteChunk11(c@),
            ChunkData::PaletteChunk(c) => ChunkDataModel::PaletteChunk(c@),
            ChunkData::PathChunk(c) => ChunkDataModel::PathChunk(c.data@),
            ChunkData::SliceChunk(c) => ChunkDataModel::SliceChunk(c@),
            ChunkData::UserDataChunk(c) => ChunkDataModel::UserDataChunk(c@),
        }
    }
}

impl ChunkDataModel {
    /// The type tag that introduces a payload of this kind.
    pub open spec fn tag(&self) -> int {
        match self {
            ChunkDataModel::OldPaletteChunk4(_) => 0x0004,
            ChunkDataModel::OldPaletteChunk11(_) => 0x0011,
            ChunkDataModel::LayerChunk(_) => 0x2004,
            ChunkDataModel::CelChunk(_) => 0x2005,
            ChunkDataModel::CelExtraChunk(_) => 0x2006,
            ChunkDataModel::ColorProfileChunk(_) => 0x2007,
            ChunkDataModel::MaskChunk(_) => 0x2016,
            ChunkDataModel::PathChunk(_) => 0x2017,
            ChunkDataModel::FrameTagsChunk(_) => 0x2018,
            ChunkDataModel::PaletteChunk(_) => 0x2019,
            ChunkDataModel::UserDataChunk(_) => 0x2020,
            ChunkDataModel::SliceChunk(_) => 0x2022,
        }
    }
}

/// A decoded chunk: its declared size, header included, and its payload.
pub struct Chunk {
    pub chunk_size: u32,
    pub chunk_data: ChunkData,
}

/// What a [`Chunk`] holds, as mathematical values.
pub struct ChunkModel {
    pub chunk_size: u32,
    pub chunk_data: ChunkDataModel,
}

impl View for Chunk {
    type V = ChunkModel;

    open spec fn view(&self) -> ChunkModel {
        ChunkModel { chunk_size: self.chunk_size, chunk_data: self.chunk_data@ }
    }
}

/// The twelve chunk type tags that have a decoder.
pub open spec fn is_known_tag(tag: int) -> bool {
    tag == 0x0004 || tag == 0x0011 || tag == 0x2004 || tag == 0x2005 || tag == 0x2006 || tag
        == 0x2007 || tag == 0x2016 || tag == 0x2017 || tag == 0x2018 || tag == 0x2019 || tag
        == 0x2020 || tag == 0x2022
}

/// The payload of type `tag` at `p` in a chunk of `chunk_size` bytes, and the
/// position just past it.
pub open spec fn parse_payload(s: Seq<u8>, p: int, tag: int, chunk_size: int, header: Header) -> Option<
    (ChunkDataModel, int),
> {
    if tag == 0x0004 {
        match parse_packet_list(s, p) {
            Some((m, q)) => Some((ChunkDataModel::OldPaletteChunk4(m), q)),
            None => None,
        }
    } else if tag == 0x0011 {
        match parse_packet_list(s, p) {
            Some((m, q)) => Some((ChunkDataModel::OldPaletteChunk11(m), q)),
            None => None,
        }
    } else if tag == 0x2004 {
        match parse_layer(s, p) {
            Some((m, q)) => Some((ChunkDataModel::LayerChunk(m), q)),
            None => None,
        }
    } else if tag == 0x2005 {
        match parse_cel(s, p, chunk_size, header) {
            Some((m, q)) => Some((ChunkDataModel::CelChunk(m), q)),
            None => None,
        }
    } else if tag == 0x2006 {
        match parse_cel_extra(s, p) {
            Some((m, q)) => Some((ChunkDataModel::CelExtraChunk(m), q)),
            None => None,
        }
    } else if tag == 0x2007 {
        match parse_color_profile(s, p) {
            Some((m, q)) => Some((ChunkDataModel::ColorProfileChunk(m), q)),
            None => None,
        }
    } else if tag == 0x2016 {
        match parse_mask(s, p) {
            Some((m, q)) => Some((ChunkDataModel::MaskChunk(m), q)),
            None => None,
        }
    } else if tag == 0x2017 {
        match parse_path(s, p, chunk_size) {
            Some((m, q)) => Some((ChunkDataModel::PathChunk(m), q)),
            None => None,
        }
    } else if tag == 0x2018 {
        match parse_frame_tags_chunk(s, p) {
            Some((m, q)) => Some((ChunkDataModel::FrameTagsChunk(m), q)),
            None => None,
        }
    } else if tag == 0x2019 {
        match parse_palette(s, p) {
            Some((m, q)) => Some((ChunkDataModel::PaletteChunk(m), q)),
            None => None,
        }
    } else if tag == 0x2020 {
        match parse_user_data(s, p) {
            Some((m, q)) => Some((ChunkDataModel::UserDataChunk(m), q)),
            None => None,
        }
    } else if tag == 0x2022 {
        match parse_slice(s, p) {
            Some((m, q)) => Some((ChunkDataModel::SliceChunk(m), q)),
            None => None,
        }
    } else {
        None
    }
}

/// The chunk that starts at `p`, and the position just past it, or why there
/// is none. Layout: size (u32), type tag (u16), payload.
pub open spec fn parse_chunk(s: Seq<u8>, p: int, header: Header) -> Result<(ChunkModel, int), ChunkError> {
    if p + 6 > s.len() {
        Err(ChunkError::StreamRead)
    } else if !is_known_tag(u16_at(s, p + 4)) {
        Err(ChunkError::UnknownChunkType(u16_at(s, p + 4) as u16))
    } else {
        match parse_payload(s, p + 6, u16_at(s, p + 4), u32_at(s, p), header) {
            Some((d, q)) => Ok((ChunkModel { chunk_size: u32_at(s, p) as u32, chunk_data: d }, q)),
            None => Err(ChunkError::StreamRead),
        }
    }
}

impl Chunk {
    /// Decodes the chunk at the reader's position: its size and type tag, then
    /// the payload of that type.
    pub fn from_read(read: &mut ByteReader, header: &Header) -> (r: Result<Chunk, ChunkError>)
        ensures
            final(read).data@ == old(read).data@,
            match r {
                Ok(c) => parse_chunk(old(read).data@, old(read).pos as int, *header) == Ok::<
                    (ChunkModel, int),
                    ChunkError,
                >((c@, final(read).pos as int)),
                Err(e) => parse_chunk(old(read).data@, old(read).pos as int, *header) == Err::<
                    (ChunkModel, int),
                    ChunkError,
                >(e),
            },
    {
        let chunk_size = read.read_u32()?;
        let chunk_type = read.read_u16()?;
        let chunk_data = if chunk_type == 0x0004 {
            ChunkData::OldPaletteChunk4(OldPaletteChunk4::from_read(read)?)
        } else if chunk_type == 0x0011 {
            ChunkData::OldPaletteChunk11(OldPaletteChunk11::from_read(read)?)
        } else if chunk_type == 0x2004 {
            ChunkData::LayerChunk(LayerChunk::from_read(read)?)
        } else if chunk_type == 0x2005 {
            ChunkData::CelChunk(CelChunk::from_read(read, chunk_size, header)?)
        } else if chunk_type == 0x2006 {
            ChunkData::CelExtraChunk(CelExtraChunk::from_read(read)?)
        } else if chunk_type == 0x2007 {
            ChunkData::ColorProfileChunk(ColorProfileChunk::from_read(read)?)
        } else if chunk_type == 0x2016 {
            ChunkData::MaskChunk(MaskChunk::from_read(read)?)
        } else if chunk_type == 0x2017 {
            ChunkData::PathChunk(PathChunk::from_read(read, chunk_size)?)
        } else if chunk_type == 0x2018 {
            ChunkData::FrameTagsChunk(FrameTagsChunk::from_read(read)?)
        } else if chunk_type == 0x2019 {
            ChunkData::PaletteChunk(PaletteChunk::from_read(read)?)
        } else if chunk_type == 0x2020 {
            ChunkData::UserDataChunk(UserDataChunk::from_read(read)?)
        } else if chunk_type == 0x2022 {
            ChunkData::SliceChunk(SliceChunk::from_read(read)?)
        } else {
            return Err(ChunkError::UnknownChunkType(chunk_type));
        };
        Ok(Chunk { chunk_size, chunk_data })
    }
}

/// A chunk that decodes holds the payload kind that its type tag names, its
/// size is the header's first four bytes, and it ends within the buffer.
pub proof fn lemma_payload_matches_tag(s: Seq<u8>, p: int, header: Header)
    requires
        0 <= p,
        parse_chunk(s, p, header) is Ok,
    ensures
        ({
            let (c, q) = parse_chunk(s, p, header)->Ok_0;
            &&& is_known_tag(u16_at(s, p + 4))
            &&& c.chunk_data.tag() == u16_at(s, p + 4)
            &&& c.chunk_size as int == u32_at(s, p)
            &&& q <= s.len()
        }),
{
    lemma_payload_prefix(s, s, p + 6, u16_at(s, p + 4), u32_at(s, p), header);
}

/// A chunk cut short is a read error: decoding a buffer that ends anywhere
/// before the chunk does gives `StreamRead`, never a record.
pub proof fn lemma_truncated_chunk_fails(s: Seq<u8>, p: int, header: Header, k: int)
    requires
        0 <= p <= k,
        parse_chunk(s, p, header) is Ok,
        k < parse_chunk(s, p, header)->Ok_0.1,
    ensures
        parse_chunk(s.subrange(0, k), p, header) == Err::<(ChunkModel, int), ChunkError>(
            ChunkError::StreamRead,
        ),
{
    let tag = u16_at(s, p + 4);
    let size = u32_at(s, p);
    lemma_payload_prefix(s, s, p + 6, tag, size, header);
    let t = s.subrange(0, k);
    assert(t.is_prefix_of(s));
    if p + 6 <= k {
        assert(t[p] == s[p] && t[p + 1] == s[p + 1] && t[p + 2] == s[p + 2] && t[p + 3] == s[p + 3]);
        assert(t[p + 4] == s[p + 4] && t[p + 5] == s[p + 5]);
        if parse_payload(t, p + 6, tag, size, header) is Some {
            lemma_payload_prefix(t, s, p + 6, tag, size, header);
        }
    }
}

/// A chunk whose type tag has no decoder fails with that tag, whatever follows.
pub proof fn lemma_unknown_tag_fails(s: Seq<u8>, p: int, header: Header)
    requires
        p + 6 <= s.len(),
        !is_known_tag(u16_at(s, p + 4)),
    ensures
        parse_chunk(s, p, header) == Err::<(ChunkModel, int), ChunkError>(
            ChunkError::UnknownChunkType(u16_at(s, p + 4) as u16),
        ),
{
}

/// A path chunk, or a cel whose content is sized by the chunk, ends exactly
/// `chunk_size` bytes after its start.
pub proof fn lemma_size_bounded_end(s: Seq<u8>, p: int, header: Header)
    requires
        parse_chunk(s, p, header) is Ok,
        u16_at(s, p + 4) == 0x2017 || (u16_at(s, p + 4) == 0x2005 && u16_at(s, p + 13) >= 2),
    ensures
        parse_chunk(s, p, header)->Ok_0.1 == p + u32_at(s, p),
{
}

/// Decoding is a function of the bytes, the position and the header: two
/// decodings of the same buffer from the same position agree.
pub proof fn lemma_decode_deterministic(
    s: Seq<u8>,
    p: int,
    header: Header,
    c1: ChunkModel,
    q1: int,
    c2: ChunkModel,
    q2: int,
)
    requires
        parse_chunk(s, p, header) == Ok::<(ChunkModel, int), ChunkError>((c1, q1)),
        parse_chunk(s, p, header) == Ok::<(ChunkModel, int), ChunkError>((c2, q2)),
    ensures
        c1 == c2,
        q1 == q2,
{
}

} // verus!
