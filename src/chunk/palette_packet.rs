use vstd::prelude::*;
use crate::reader::{ByteReader, ChunkError, u16_at};

verus! {

/// A color of a legacy palette.
#[derive(Debug, Clone, Copy, PartialEq, Eq, Structural)]
pub struct PacketColor {
    pub red: u8,
    pub green: u8,
    pub blue: u8,
}

/// A packet of a legacy palette: skip some entries, then set some colors.
pub struct PalettePacket {
    pub entries_to_skip: u8,
    pub colors: Vec<PacketColor>,
}

/// What a [`PalettePacket`] holds, as mathematical values.
pub struct PalettePacketModel {
    pub entries_to_skip: u8,
    pub colors: Seq<PacketColor>,
}

impl View for PalettePacket {
    type V = PalettePacketModel;

    open spec fn view(&self) -> PalettePacketModel {
        PalettePacketModel { entries_to_skip: self.entries_to_skip, colors: self.colors@ }
    }
}

/// The models of a sequence of packets.
pub open spec fn packet_models(v: Seq<PalettePacket>) -> Seq<PalettePacketModel> {
    v.map_values(|k: PalettePacket| k@)
}

/// Colors in a packet whose count byte is `b`: a zero byte stands for 256.
pub open spec fn packet_color_count(b: u8) -> int {
    if b == 0 {
        256
    } else {
        b as int
    }
}

/// The three bytes at `p` as a color.
pub open spec fn color_at(s: Seq<u8>, p: int) -> PacketColor {
    PacketColor { red: s[p], green: s[p + 1], blue: s[p + 2] }
}

/// The packet at `p`, and the position just past it. Layout: entries to skip,
/// color count (both u8), then three bytes per color.
pub open spec fn parse_packet(s: Seq<u8>, p: int) -> Option<(PalettePacketModel, int)> {
    if p + 2 <= s.len() && p + 2 + 3 * packet_color_count(s[p + 1]) <= s.len() {
        Some(
            (
                PalettePacketModel {
                    entries_to_skip: s[p],
                    colors: Seq::new(
                        packet_color_count(s[p + 1]) as nat,
                        |k: int| color_at(s, p + 2 + 3 * k),
                    ),
                },
                p + 2 + 3 * packet_color_count(s[p + 1]),
            ),
        )
    } else {
        None
    }
}

/// `n` packets one after another from `p`, and the position just past them.
pub open spec fn parse_packets(s: Seq<u8>, p: int, n: nat) -> Option<
    (Seq<PalettePacketModel>, int),
>
    decreases n,
{
    if n == 0 {
        Some((Seq::empty(), p))
    } else {
        match parse_packets(s, p, (n - 1) as nat) {
            Some((ks, q)) => match parse_packet(s, q) {
                Some((k, r)) => Some((ks.push(k), r)),
                None => None,
            },
            None => None,
        }
    }
}

/// The packets of a legacy palette whose payload starts at `p`, and the
/// position just past them. Layout: packet count (u16), then the packets.
pub open spec fn parse_packet_list(s: Seq<u8>, p: int) -> Option<(Seq<PalettePacketModel>, int)> {
    if p + 2 <= s.len() {
        parse_packets(s, p + 2, u16_at(s, p) as nat)
    } else {
        None
    }
}

/// Once a prefix of the packets fails to decode, so does every longer run.
proof fn lemma_packets_fail(s: Seq<u8>, p: int, i: nat, n: nat)
    requires
        i <= n,
        parse_packets(s, p, i) is None,
    ensures
        parse_packets(s, p, n) is None,
    decreases n - i,
{
    if i < n {
        lemma_packets_fail(s, p, i, (n - 1) as nat);
    }
}

impl PalettePacket {
    /// Decodes one packet at the reader's position.
    pub fn from_read(read: &mut ByteReader) -> (r: Result<PalettePacket, ChunkError>)
        ensures
            final(read).data@ == old(read).data@,
            match r {
                Ok(k) => parse_packet(old(read).data@, old(read).pos as int) == Some(
                    (k@, final(read).pos as int),
                ),
                Err(e) => parse_packet(old(read).data@, old(read).pos as int) is None && e
                    == ChunkError::StreamRead,
            },
    {
        let ghost s = read.data@;
        let entries_to_skip = read.read_u8()?;
        let b = read.read_u8()?;
        let count: u16 = if b == 0 {
            256
        } else {
            b as u16
        };
        if read.pos > read.data.len() || ((read.data.len() - read.pos) as u64) < 3 * count as u64 {
            return Err(ChunkError::StreamRead);
        }
        let ghost q = read.pos as int;
        let mut colors: Vec<PacketColor> = Vec::new();
        let mut i: u16 = 0;
        while i < count
            invariant
                read.data@ == s,
                s == old(read).data@,
                q == old(read).pos + 2,
                count as int == packet_color_count(s[old(read).pos + 1]),
                q + 3 * count <= s.len(),
                i <= count,
                read.pos == q + 3 * i,
                colors@ == Seq::new(i as nat, |k: int| color_at(s, q + 3 * k)),
            decreases count - i,
        {
            let red = read.read_u8()?;
            let green = read.read_u8()?;
            let blue = read.read_u8()?;
            colors.push(PacketColor { red, green, blue });
            i = i + 1;
            assert(colors@ =~= Seq::new(i as nat, |k: int| color_at(s, q + 3 * k)));
        }
        Ok(PalettePacket { entries_to_skip, colors })
    }
}

/// Decodes the packet list of a legacy palette at the reader's position.
pub fn read_packet_list(read: &mut ByteReader) -> (r: Result<Vec<PalettePacket>, ChunkError>)
    ensures
        final(read).data@ == old(read).data@,
        match r {
            Ok(v) => parse_packet_list(old(read).data@, old(read).pos as int) == Some(
                (packet_models(v@), final(read).pos as int),
            ),
            Err(e) => parse_packet_list(old(read).data@, old(read).pos as int) is None && e
                == ChunkError::StreamRead,
        },
{
    let ghost s = read.data@;
    let count = read.read_u16()?;
    let ghost p0 = read.pos as int;
    let mut packets: Vec<PalettePacket> = Vec::new();
    let mut i: u16 = 0;
    while i < count
        invariant
            read.data@ == s,
            s == old(read).data@,
            old(read).pos + 2 <= s.len(),
            p0 == old(read).pos + 2,
            count as int == u16_at(s, old(read).pos as int),
            i <= count,
            parse_packets(s, p0, i as nat) == Some((packet_models(packets@), read.pos as int)),
        decreases count - i,
    {
        match PalettePacket::from_read(read) {
            Ok(k) => {
                proof {
                    assert(packet_models(packets@.push(k)) =~= packet_models(packets@).push(k@));
                }
                packets.push(k);
                i = i + 1;
            },
            Err(e) => {
                proof {
                    lemma_packets_fail(s, p0, (i + 1) as nat, count as nat);
                }
                return Err(e);
            },
        }
    }
    Ok(packets)
}

} // verus!
