use vstd::prelude::*;
use byteorder::{ByteOrder, LittleEndian};

verus! {

/// Why a chunk could not be decoded.
#[derive(Debug, Clone, Copy, PartialEq, Eq, Structural)]
pub enum ChunkError {
    /// The bytes ran out before the chunk did, or a string was not UTF-8.
    StreamRead,
    /// The chunk's type tag is not one of the known ones.
    UnknownChunkType(u16),
}

/// The parts of the file header that chunk payloads depend on.
#[derive(Debug, Clone, Copy, PartialEq, Eq, Structural)]
pub struct Header {
    /// Bits per pixel: 32 (RGBA), 16 (grayscale) or 8 (indexed).
    pub color_depth: u16,
}

impl Header {
    /// Bytes that one pixel of a raw cel takes.
    pub open spec fn spec_bytes_per_pixel(&self) -> int {
        self.color_depth as int / 8
    }
}

/// Unsigned 16-bit little-endian value of `s[p]`, `s[p + 1]`.
pub open spec fn u16_at(s: Seq<u8>, p: int) -> int {
    s[p] as int + 256 * s[p + 1] as int
}

/// Signed (two's complement) 16-bit little-endian value at `p`.
pub open spec fn i16_at(s: Seq<u8>, p: int) -> int {
    if u16_at(s, p) < 0x8000 {
        u16_at(s, p)
    } else {
        u16_at(s, p) - 0x10000
    }
}

/// Unsigned 32-bit little-endian value of the four bytes at `p`.
pub open spec fn u32_at(s: Seq<u8>, p: int) -> int {
    u16_at(s, p) + 0x10000 * u16_at(s, p + 2)
}

/// Signed (two's complement) 32-bit little-endian value at `p`.
pub open spec fn i32_at(s: Seq<u8>, p: int) -> int {
    if u32_at(s, p) < 0x8000_0000 {
        u32_at(s, p)
    } else {
        u32_at(s, p) - 0x1_0000_0000
    }
}

/// The text that a byte sequence holds when read as UTF-8, if it is valid UTF-8.
pub uninterp spec fn utf8_text(b: Seq<u8>) -> Option<Seq<char>>;

/// A string field: a 16-bit length, then that many bytes of UTF-8.
/// Gives the text and the position just past it.
pub open spec fn string_at(s: Seq<u8>, p: int) -> Option<(Seq<char>, int)> {
    if p + 2 <= s.len() && p + 2 + u16_at(s, p) <= s.len() {
        match utf8_text(s.subrange(p + 2, p + 2 + u16_at(s, p))) {
            Some(t) => Some((t, p + 2 + u16_at(s, p))),
            None => None,
        }
    } else {
        None
    }
}

/// Relies on byteorder's `LittleEndian::read_u16`: the first two bytes of the
/// slice, least significant first; it panics on a shorter slice.
#[verifier::external_body]
fn le_u16(buf: &[u8], at: usize) -> (r: u16)
    requires
        at + 2 <= buf@.len(),
    ensures
        r as int == u16_at(buf@, at as int),
{
    LittleEndian::read_u16(&buf[at..])
}

/// Relies on byteorder's `LittleEndian::read_i16`: the first two bytes of the
/// slice as a two's complement value, least significant first.
#[verifier::external_body]
fn le_i16(buf: &[u8], at: usize) -> (r: i16)
    requires
        at + 2 <= buf@.len(),
    ensures
        r as int == i16_at(buf@, at as int),
{
    LittleEndian::read_i16(&buf[at..])
}

/// Relies on byteorder's `LittleEndian::read_u32`: the first four bytes of the
/// slice, least significant first; it panics on a shorter slice.
#[verifier::external_body]
fn le_u32(buf: &[u8], at: usize) -> (r: u32)
    requires
        at + 4 <= buf@.len(),
    ensures
        r as int == u32_at(buf@, at as int),
{
    LittleEndian::read_u32(&buf[at..])
}

/// Relies on byteorder's `LittleEndian::read_i32`: the first four bytes of the
/// slice as a two's complement value, least significant first.
#[verifier::external_body]
fn le_i32(buf: &[u8], at: usize) -> (r: i32)
    requires
        at + 4 <= buf@.len(),
    ensures
        r as int == i32_at(buf@, at as int),
{
    LittleEndian::read_i32(&buf[at..])
}

/// Relies on `String::from_utf8`: the bytes' text when they are valid UTF-8,
/// and nothing otherwise.
#[verifier::external_body]
fn decode_utf8(b: Vec<u8>) -> (r: Option<String>)
    ensures
        match r {
            Some(t) => utf8_text(b@) == Some(t@),
            None => utf8_text(b@) == None::<Seq<char>>,
        },
{
    String::from_utf8(b).ok()
}

/// A byte buffer with a read position: the source that chunks are decoded from.
pub struct ByteReader {
    pub data: Vec<u8>,
    pub pos: usize,
}

impl ByteReader {
    /// A reader at the start of `data`.
    pub fn new(data: Vec<u8>) -> (r: ByteReader)
        ensures
            r.data@ == data@,
            r.pos == 0,
    {
        ByteReader { data, pos: 0 }
    }

    /// The current read position.
    pub fn position(&self) -> (r: usize)
        ensures
            r == self.pos,
    {
        self.pos
    }

    /// Reads one byte.
    pub fn read_u8(&mut self) -> (r: Result<u8, ChunkError>)
        ensures
            final(self).data@ == old(self).data@,
            match r {
                Ok(v) => old(self).pos + 1 <= old(self).data@.len()
                    && v == old(self).data@[old(self).pos as int]
                    && final(self).pos == old(self).pos + 1,
                Err(e) => old(self).pos + 1 > old(self).data@.len() && e == ChunkError::StreamRead,
            },
    {
        if self.pos < self.data.len() {
            let v = self.data[self.pos];
            self.pos = self.pos + 1;
            Ok(v)
        } else {
            Err(ChunkError::StreamRead)
        }
    }

    /// Reads an unsigned 16-bit little-endian integer.
    pub fn read_u16(&mut self) -> (r: Result<u16, ChunkError>)
        ensures
            final(self).data@ == old(self).data@,
            match r {
                Ok(v) => old(self).pos + 2 <= old(self).data@.len()
                    && v as int == u16_at(old(self).data@, old(self).pos as int)
                    && final(self).pos == old(self).pos + 2,
                Err(e) => old(self).pos + 2 > old(self).data@.len() && e == ChunkError::StreamRead,
            },
    {
        if self.data.len() >= 2 && self.pos <= self.data.len() - 2 {
            let v = le_u16(self.data.as_slice(), self.pos);
            self.pos = self.pos + 2;
            Ok(v)
        } else {
            Err(ChunkError::StreamRead)
        }
    }

    /// Reads a signed 16-bit little-endian integer.
    pub fn read_i16(&mut self) -> (r: Result<i16, ChunkError>)
        ensures
            final(self).data@ == old(self).data@,
            match r {
                Ok(v) => old(self).pos + 2 <= old(self).data@.len()
                    && v as int == i16_at(old(self).data@, old(self).pos as int)
                    && final(self).pos == old(self).pos + 2,
                Err(e) => old(self).pos + 2 > old(self).data@.len() && e == ChunkError::StreamRead,
            },
    {
        if self.data.len() >= 2 && self.pos <= self.data.len() - 2 {
            let v = le_i16(self.data.as_slice(), self.pos);
            self.pos = self.pos + 2;
            Ok(v)
        } else {
            Err(ChunkError::StreamRead)
        }
    }

    /// Reads an unsigned 32-bit little-endian integer.
    pub fn read_u32(&mut self) -> (r: Result<u32, ChunkError>)
        ensures
            final(self).data@ == old(self).data@,
            match r {
                Ok(v) => old(self).pos + 4 <= old(self).data@.len()
                    && v as int == u32_at(old(self).data@, old(self).pos as int)
                    && final(self).pos == old(self).pos + 4,
                Err(e) => old(self).pos + 4 > old(self).data@.len() && e == ChunkError::StreamRead,
            },
    {
        if self.data.len() >= 4 && self.pos <= self.data.len() - 4 {
            let v = le_u32(self.data.as_slice(), self.pos);
            self.pos = self.pos + 4;
            Ok(v)
        } else {
            Err(ChunkError::StreamRead)
        }
    }

    /// Reads a signed 32-bit little-endian integer.
    pub fn read_i32(&mut self) -> (r: Result<i32, ChunkError>)
        ensures
            final(self).data@ == old(self).data@,
            match r {
                Ok(v) => old(self).pos + 4 <= old(self).data@.len()
                    && v as int == i32_at(old(self).data@, old(self).pos as int)
                    && final(self).pos == old(self).pos + 4,
                Err(e) => old(self).pos + 4 > old(self).data@.len() && e == ChunkError::StreamRead,
            },
    {
        if self.data.len() >= 4 && self.pos <= self.data.len() - 4 {
            let v = le_i32(self.data.as_slice(), self.pos);
            self.pos = self.pos + 4;
            Ok(v)
        } else {
            Err(ChunkError::StreamRead)
        }
    }

    /// Moves the position `n` bytes forward; moving past the end of the
    /// buffer is a truncated stream.
    pub fn skip(&mut self, n: usize) -> (r: Result<(), ChunkError>)
        ensures
            final(self).data@ == old(self).data@,
            match r {
                Ok(_) => old(self).pos + n <= old(self).data@.len()
                    && final(self).pos == old(self).pos + n,
                Err(e) => old(self).pos + n > old(self).data@.len() && e == ChunkError::StreamRead,
            },
    {
        if n <= self.data.len() && self.pos <= self.data.len() - n {
            self.pos = self.pos + n;
            Ok(())
        } else {
            Err(ChunkError::StreamRead)
        }
    }

    /// Reads the next `n` bytes.
    pub fn read_bytes(&mut self, n: usize) -> (r: Result<Vec<u8>, ChunkError>)
        ensures
            final(self).data@ == old(self).data@,
            match r {
                Ok(v) => old(self).pos + n <= old(self).data@.len()
                    && v@ == old(self).data@.subrange(old(self).pos as int, old(self).pos + n)
                    && final(self).pos == old(self).pos + n,
                Err(e) => old(self).pos + n > old(self).data@.len() && e == ChunkError::StreamRead,
            },
    {
        if n <= self.data.len() && self.pos <= self.data.len() - n {
            let start = self.pos;
            let end: usize = start + n;
            let mut out: Vec<u8> = Vec::new();
            let mut i: usize = 0;
            while i < n
                invariant
                    i <= n,
                    end == start + n,
                    end <= self.data@.len(),
                    out@ == self.data@.subrange(start as int, start + i),
                decreases n - i,
            {
                out.push(self.data[start + i]);
                i = i + 1;
                assert(out@ =~= self.data@.subrange(start as int, start + i));
            }
            self.pos = end;
            Ok(out)
        } else {
            Err(ChunkError::StreamRead)
        }
    }

    /// Reads the next `n` bytes, where `n` may exceed what a `usize` holds.
    pub fn read_bytes_u64(&mut self, n: u64) -> (r: Result<Vec<u8>, ChunkError>)
        ensures
            final(self).data@ == old(self).data@,
            match r {
                Ok(v) => old(self).pos + n <= old(self).data@.len()
                    && v@ == old(self).data@.subrange(old(self).pos as int, old(self).pos + n)
                    && final(self).pos == old(self).pos + n,
                Err(e) => old(self).pos + n > old(self).data@.len() && e == ChunkError::StreamRead,
            },
    {
        if self.pos <= self.data.len() && n <= (self.data.len() - self.pos) as u64 {
            self.read_bytes(n as usize)
        } else {
            Err(ChunkError::StreamRead)
        }
    }

    /// Reads a string field: a 16-bit length, then that many bytes of UTF-8.
    pub fn read_string(&mut self) -> (r: Result<String, ChunkError>)
        ensures
            final(self).data@ == old(self).data@,
            match r {
                Ok(t) => string_at(old(self).data@, old(self).pos as int) == Some(
                    (t@, final(self).pos as int),
                ),
                Err(e) => string_at(old(self).data@, old(self).pos as int) == None::<
                    (Seq<char>, int),
                > && e == ChunkError::StreamRead,
            },
    {
        let n = self.read_u16()?;
        let bytes = self.read_bytes(n as usize)?;
        match decode_utf8(bytes) {
            Some(t) => Ok(t),
            None => Err(ChunkError::StreamRead),
        }
    }
}

} // verus!
