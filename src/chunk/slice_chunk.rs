use vstd::prelude::*;
use crate::reader::{ByteReader, ChunkError, i32_at, u32_at, string_at};

verus! {

/// The center part of a nine-patch slice.
#[derive(Debug, Clone, Copy, PartialEq, Eq, Structural)]
pub struct SliceCenter {
    pub x: i32,
    pub y: i32,
    pub width: u32,
    pub height: u32,
}

/// The pivot point of a slice.
#[derive(Debug, Clone, Copy, PartialEq, Eq, Structural)]
pub struct SlicePivot {
    pub x: i32,
    pub y: i32,
}

/// The bounds of a slice from a given frame on.
#[derive(Debug, Clone, Copy, PartialEq, Eq, Structural)]
pub struct SliceKey {
    pub frame_number: u32,
    pub x: i32,
    pub y: i32,
    pub width: u32,
    pub height: u32,
    /// Present when bit 0 of the slice's flags is set.
    pub center: Option<SliceCenter>,
    /// Present when bit 1 of the slice's flags is set.
    pub pivot: Option<SlicePivot>,
}

/// A slice chunk: a named region of the sprite, keyed by frame.
pub struct SliceChunk {
    pub flags: u32,
    pub name: String,
    pub keys: Vec<SliceKey>,
}

/// What a [`SliceChunk`] holds, as mathematical values.
pub struct SliceModel {
    pub flags: u32,
    pub name: Seq<char>,
    pub keys: Seq<SliceKey>,
}

impl View for SliceChunk {
    type V = SliceModel;

    open spec fn view(&self) -> SliceModel {
        SliceModel { flags: self.flags, name: self.name@, keys: self.keys@ }
    }
}

/// Bytes of one key of a slice with the given flags.
pub open spec fn slice_key_len(flags: u32) -> int {
    20 + (if flags & 1 != 0 {
        16int
    } else {
        0int
    }) + (if flags & 2 != 0 {
        8int
    } else {
        0int
    })
}

/// The key at `p` of a slice with the given flags, and the position just past
/// it. Layout: frame (u32), x, y (i32), width, height (u32), then the center
/// (x, y, width, height) with bit 0 and the pivot (x, y) with bit 1.
pub open spec fn parse_slice_key(s: Seq<u8>, p: int, flags: u32) -> Option<(SliceKey, int)> {
    if p + slice_key_len(flags) <= s.len() {
        let c = p + 20;
        let v = if flags & 1 != 0 {
            c + 16
        } else {
            c
        };
        Some(
            (
                SliceKey {
                    frame_number: u32_at(s, p) as u32,
                    x: i32_at(s, p + 4) as i32,
                    y: i32_at(s, p + 8) as i32,
                    width: u32_at(s, p + 12) as u32,
                    height: u32_at(s, p + 16) as u32,
                    center: if flags & 1 != 0 {
                        Some(
                            SliceCenter {
                                x: i32_at(s, c) as i32,
                                y: i32_at(s, c + 4) as i32,
                                width: u32_at(s, c + 8) as u32,
                                height: u32_at(s, c + 12) as u32,
                            },
                        )
                    } else {
                        None
                    },
                    pivot: if flags & 2 != 0 {
                        Some(SlicePivot { x: i32_at(s, v) as i32, y: i32_at(s, v + 4) as i32 })
                    } else {
                        None
                    },
                },
                p + slice_key_len(flags),
            ),
        )
    } else {
        None
    }
}

/// `n` keys one after another from `p`, and the position just past them.
pub open spec fn parse_slice_keys(s: Seq<u8>, p: int, flags: u32, n: nat) -> Option<
    (Seq<SliceKey>, int),
>
    decreases n,
{
    if n == 0 {
        Some((Seq::empty(), p))
    } else {
        match parse_slice_keys(s, p, flags, (n - 1) as nat) {
            Some((ks, q)) => match parse_slice_key(s, q, flags) {
                Some((k, r)) => Some((ks.push(k), r)),
                None => None,
            },
            None => None,
        }
    }
}

/// The slice record whose payload starts at `p`, and the position just past
/// it. Layout: key count, flags, a reserved u32, name, keys.
pub open spec fn parse_slice(s: Seq<u8>, p: int) -> Option<(SliceModel, int)> {
    if p + 12 <= s.len() {
        match string_at(s, p + 12) {
            Some((name, q)) => match parse_slice_keys(
                s,
                q,
                u32_at(s, p + 4) as u32,
                u32_at(s, p) as nat,
            ) {
                Some((keys, r)) => Some(
                    (SliceModel { flags: u32_at(s, p + 4) as u32, name, keys }, r),
                ),
                None => None,
            },
            None => None,
        }
    } else {
        None
    }
}

/// Once a prefix of the keys fails to decode, so does every longer run.
proof fn lemma_slice_keys_fail(s: Seq<u8>, p: int, flags: u32, i: nat, n: nat)
    requires
        i <= n,
        parse_slice_keys(s, p, flags, i) is None,
    ensures
        parse_slice_keys(s, p, flags, n) is None,
    decreases n - i,
{
    if i < n {
        lemma_slice_keys_fail(s, p, flags, i, (n - 1) as nat);
    }
}

impl SliceKey {
    /// Decodes one key of a slice with the given flags at the reader's position.
    pub fn from_read(read: &mut ByteReader, flags: u32) -> (r: Result<SliceKey, ChunkError>)
        ensures
            final(read).data@ == old(read).data@,
            match r {
                Ok(k) => parse_slice_key(old(read).data@, old(read).pos as int, flags) == Some(
                    (k, final(read).pos as int),
                ),
                Err(e) => parse_slice_key(old(read).data@, old(read).pos as int, flags) is None
                    && e == ChunkError::StreamRead,
            },
    {
        let frame_number = read.read_u32()?;
        let x = read.read_i32()?;
        let y = read.read_i32()?;
        let width = read.read_u32()?;
        let height = read.read_u32()?;
        let center = if flags & 1 != 0 {
            let cx = read.read_i32()?;
            let cy = read.read_i32()?;
            let cw = read.read_u32()?;
            let ch = read.read_u32()?;
            Some(SliceCenter { x: cx, y: cy, width: cw, height: ch })
        } else {
            None
        };
        let pivot = if flags & 2 != 0 {
            let px = read.read_i32()?;
            let py = read.read_i32()?;
            Some(SlicePivot { x: px, y: py })
        } else {
            None
        };
        Ok(SliceKey { frame_number, x, y, width, height, center, pivot })
    }
}

impl SliceChunk {
    /// Decodes a slice payload at the reader's position.
    pub fn from_read(read: &mut ByteReader) -> (r: Result<SliceChunk, ChunkError>)
        ensures
            final(read).data@ == old(read).data@,
            match r {
                Ok(c) => parse_slice(old(read).data@, old(read).pos as int) == Some(
                    (c@, final(read).pos as int),
                ),
                Err(e) => parse_slice(old(read).data@, old(read).pos as int) is None && e
                    == ChunkError::StreamRead,
            },
    {
        let ghost s = read.data@;
        let count = read.read_u32()?;
        let flags = read.read_u32()?;
        read.skip(4)?;
        let name = read.read_string()?;
        let ghost p0 = read.pos as int;
        let mut keys: Vec<SliceKey> = Vec::new();
        let mut i: u32 = 0;
        while i < count
            invariant
                read.data@ == s,
                s == old(read).data@,
                old(read).pos + 12 <= s.len(),
                string_at(s, old(read).pos + 12) == Some((name@, p0)),
                count as int == u32_at(s, old(read).pos as int),
                flags as int == u32_at(s, old(read).pos + 4),
                i <= count,
                parse_slice_keys(s, p0, flags, i as nat) == Some((keys@, read.pos as int)),
            decreases count - i,
        {
            match SliceKey::from_read(read, flags) {
                Ok(k) => {
                    keys.push(k);
                    i = i + 1;
                },
                Err(e) => {
                    proof {
                        lemma_slice_keys_fail(s, p0, flags, (i + 1) as nat, count as nat);
                    }
                    return Err(e);
                },
            }
        }
        Ok(SliceChunk { flags, name, keys })
    }
}

} // verus!
