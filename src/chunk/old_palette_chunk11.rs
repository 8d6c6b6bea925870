use vstd::prelude::*;
use crate::reader::{ByteReader, ChunkError};
use super::palette_packet::{PalettePacket, PalettePacketModel, packet_models, parse_packet_list, read_packet_list};

verus! {

/// A legacy palette chunk (tag 0x0011), whose color components run from
/// 0 to 63.
pub struct OldPaletteChunk11 {
    pub packets: Vec<PalettePacket>,
}

impl View for OldPaletteChunk11 {
    type V = Seq<PalettePacketModel>;

    open spec fn view(&self) -> Seq<PalettePacketModel> {
        packet_models(self.packets@)
    }
}

impl OldPaletteChunk11 {
    /// Decodes a legacy palette payload at the reader's position.
    pub fn from_read(read: &mut ByteReader) -> (r: Result<OldPaletteChunk11, ChunkError>)
        ensures
            final(read).data@ == old(read).data@,
            match r {
                Ok(c) => parse_packet_list(old(read).data@, old(read).pos as int) == Some(
                    (c@, final(read).pos as int),
                ),
                Err(e) => parse_packet_list(old(read).data@, old(read).pos as int) is None && e
                    == ChunkError::StreamRead,
            },
    {
        let packets = read_packet_list(read)?;
        Ok(OldPaletteChunk11 { packets })
    }
}

} // verus!
