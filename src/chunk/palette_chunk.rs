use vstd::prelude::*;
use crate::reader::{ByteReader, ChunkError, u16_at, u32_at, string_at};

verus! {

/// One palette entry.
pub struct PaletteEntry {
    pub flags: u16,
    pub red: u8,
    pub green: u8,
    pub blue: u8,
    pub alpha: u8,
    /// Present when bit 0 of the flags is set.
    pub name: Option<String>,
}

/// What a [`PaletteEntry`] holds, as mathematical values.
pub struct PaletteEntryModel {
    pub flags: u16,
    pub red: u8,
    pub green: u8,
    pub blue: u8,
    pub alpha: u8,
    pub name: Option<Seq<char>>,
}

impl View for PaletteEntry {
    type V = PaletteEntryModel;

    open spec fn view(&self) -> PaletteEntryModel {
        PaletteEntryModel {
            flags: self.flags,
            red: self.red,
            green: self.green,
            blue: self.blue,
            alpha: self.alpha,
            name: match self.name {
                Some(t) => Some(t@),
                None => None,
            },
        }
    }
}

/// A palette chunk: new colors for the entries `first_color..=last_color`.
pub struct PaletteChunk {
    pub palette_size: u32,
    pub first_color: u32,
    pub last_color: u32,
    pub entries: Vec<PaletteEntry>,
}

/// What a [`PaletteChunk`] holds, as mathematical values.
pub struct PaletteModel {
    pub palette_size: u32,
    pub first_color: u32,
    pub last_color: u32,
    pub entries: Seq<PaletteEntryModel>,
}

/// The models of a sequence of palette entries.
pub open spec fn entry_models(v: Seq<PaletteEntry>) -> Seq<PaletteEntryModel> {
    v.map_values(|e: PaletteEntry| e@)
}

impl View for PaletteChunk {
    type V = PaletteModel;

    open spec fn view(&self) -> PaletteModel {
        PaletteModel {
            palette_size: self.palette_size,
            first_color: self.first_color,
            last_color: self.last_color,
            entries: entry_models(self.entries@),
        }
    }
}

/// Entries in the range `first..=last`; none where the range is empty.
pub open spec fn palette_entry_count(first: int, last: int) -> int {
    if first <= last {
        last - first + 1
    } else {
        0
    }
}

/// The entry at `p`, and the position just past it. Layout: flags (u16),
/// red, green, blue, alpha, and with bit 0 of the flags a name.
pub open spec fn parse_palette_entry(s: Seq<u8>, p: int) -> Option<(PaletteEntryModel, int)> {
    if p + 6 > s.len() {
        None
    } else {
        let named = (u16_at(s, p) as u16) & 1 != 0;
        let name = if named {
            string_at(s, p + 6)
        } else {
            Some((Seq::<char>::empty(), p + 6))
        };
        match name {
            Some((t, q)) => Some(
                (
                    PaletteEntryModel {
                        flags: u16_at(s, p) as u16,
                        red: s[p + 2],
                        green: s[p + 3],
                        blue: s[p + 4],
                        alpha: s[p + 5],
                        name: if named {
                            Some(t)
                        } else {
                            None
                        },
                    },
                    q,
                ),
            ),
            None => None,
        }
    }
}

/// `n` entries one after another from `p`, and the position just past them.
pub open spec fn parse_palette_entries(s: Seq<u8>, p: int, n: nat) -> Option<
    (Seq<PaletteEntryModel>, int),
>
    decreases n,
{
    if n == 0 {
        Some((Seq::empty(), p))
    } else {
        match parse_palette_entries(s, p, (n - 1) as nat) {
            Some((es, q)) => match parse_palette_entry(s, q) {
                Some((e, r)) => Some((es.push(e), r)),
                None => None,
            },
            None => None,
        }
    }
}

/// The palette record whose payload starts at `p`, and the position just past
/// it. Layout: palette size, first, last (u32), 8 reserved bytes, entries.
pub open spec fn parse_palette(s: Seq<u8>, p: int) -> Option<(PaletteModel, int)> {
    if p + 20 <= s.len() {
        match parse_palette_entries(
            s,
            p + 20,
            palette_entry_count(u32_at(s, p + 4), u32_at(s, p + 8)) as nat,
        ) {
            Some((entries, q)) => Some(
                (
                    PaletteModel {
                        palette_size: u32_at(s, p) as u32,
                        first_color: u32_at(s, p + 4) as u32,
                        last_color: u32_at(s, p + 8) as u32,
                        entries,
                    },
                    q,
                ),
            ),
            None => None,
        }
    } else {
        None
    }
}

/// Once a prefix of the entries fails to decode, so does every longer run.
proof fn lemma_palette_entries_fail(s: Seq<u8>, p: int, i: nat, n: nat)
    requires
        i <= n,
        parse_palette_entries(s, p, i) is None,
    ensures
        parse_palette_entries(s, p, n) is None,
    decreases n - i,
{
    if i < n {
        lemma_palette_entries_fail(s, p, i, (n - 1) as nat);
    }
}

impl PaletteEntry {
    /// Decodes one palette entry at the reader's position.
    pub fn from_read(read: &mut ByteReader) -> (r: Result<PaletteEntry, ChunkError>)
        ensures
            final(read).data@ == old(read).data@,
            match r {
                Ok(e) => parse_palette_entry(old(read).data@, old(read).pos as int) == Some(
                    (e@, final(read).pos as int),
                ),
                Err(e) => parse_palette_entry(old(read).data@, old(read).pos as int) is None && e
                    == ChunkError::StreamRead,
            },
    {
        let flags = read.read_u16()?;
        let red = read.read_u8()?;
        let green = read.read_u8()?;
        let blue = read.read_u8()?;
        let alpha = read.read_u8()?;
        let name = if flags & 1 != 0 {
            Some(read.read_string()?)
        } else {
            None
        };
        Ok(PaletteEntry { flags, red, green, blue, alpha, name })
    }
}

impl PaletteChunk {
    /// Decodes a palette payload at the reader's position.
    pub fn from_read(read: &mut ByteReader) -> (r: Result<PaletteChunk, ChunkError>)
        ensures
            final(read).data@ == old(read).data@,
            match r {
                Ok(c) => parse_palette(old(read).data@, old(read).pos as int) == Some(
                    (c@, final(read).pos as int),
                ),
                Err(e) => parse_palette(old(read).data@, old(read).pos as int) is None && e
                    == ChunkError::StreamRead,
            },
    {
        let ghost s = read.data@;
        let palette_size = read.read_u32()?;
        let first_color = read.read_u32()?;
        let last_color = read.read_u32()?;
        read.skip(8)?;
        let ghost p0 = read.pos as int;
        let count: u64 = if first_color <= last_color {
            (last_color - first_color) as u64 + 1
        } else {
            0
        };
        let mut entries: Vec<PaletteEntry> = Vec::new();
        let mut i: u64 = 0;
        while i < count
            invariant
                read.data@ == s,
                s == old(read).data@,
                old(read).pos + 20 <= s.len(),
                p0 == old(read).pos + 20,
                first_color as int == u32_at(s, old(read).pos + 4),
                last_color as int == u32_at(s, old(read).pos + 8),
                count as int == palette_entry_count(first_color as int, last_color as int),
                i <= count,
                parse_palette_entries(s, p0, i as nat) == Some(
                    (entry_models(entries@), read.pos as int),
                ),
            decreases count - i,
        {
            match PaletteEntry::from_read(read) {
                Ok(e) => {
                    proof {
                        assert(entry_models(entries@.push(e)) =~= entry_models(entries@).push(e@));
                    }
                    entries.push(e);
                    i = i + 1;
                },
                Err(e) => {
                    proof {
                        lemma_palette_entries_fail(s, p0, (i + 1) as nat, count as nat);
                    }
                    return Err(e);
                },
            }
        }
        Ok(PaletteChunk { palette_size, first_color, last_color, entries })
    }
}

} // verus!
