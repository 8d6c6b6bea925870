use vstd::prelude::*;
use crate::reader::{ByteReader, ChunkError, i32_at, u16_at, u32_at};

verus! {

/// A color profile chunk: the color space of the sprite.
pub struct ColorProfileChunk {
    /// 0 for none, 1 for sRGB, 2 for an embedded ICC profile.
    pub profile_type: u16,
    pub flags: u16,
    /// Gamma as a 16.16 fixed-point value.
    pub fixed_gamma: i32,
    /// The embedded ICC profile, for profile type 2.
    pub icc_profile: Option<Vec<u8>>,
}

/// What a [`ColorProfileChunk`] holds, as mathematical values.
pub struct ColorProfileModel {
    pub profile_type: u16,
    pub flags: u16,
    pub fixed_gamma: i32,
    pub icc_profile: Option<Seq<u8>>,
}

impl View for ColorProfileChunk {
    type V = ColorProfileModel;

    open spec fn view(&self) -> ColorProfileModel {
        ColorProfileModel {
            profile_type: self.profile_type,
            flags: self.flags,
            fixed_gamma: self.fixed_gamma,
            icc_profile: match self.icc_profile {
                Some(v) => Some(v@),
                None => None,
            },
        }
    }
}

/// The color profile record whose payload starts at `p`, and the position just
/// past it. Layout: type, flags (u16), gamma (i32), 8 reserved bytes, and for
/// an ICC profile its length (u32) and bytes.
pub open spec fn parse_color_profile(s: Seq<u8>, p: int) -> Option<(ColorProfileModel, int)> {
    if p + 16 > s.len() {
        None
    } else if u16_at(s, p) != 2 {
        Some(
            (
                ColorProfileModel {
                    profile_type: u16_at(s, p) as u16,
                    flags: u16_at(s, p + 2) as u16,
                    fixed_gamma: i32_at(s, p + 4) as i32,
                    icc_profile: None,
                },
                p + 16,
            ),
        )
    } else if p + 20 <= s.len() && p + 20 + u32_at(s, p + 16) <= s.len() {
        Some(
            (
                ColorProfileModel {
                    profile_type: u16_at(s, p) as u16,
                    flags: u16_at(s, p + 2) as u16,
                    fixed_gamma: i32_at(s, p + 4) as i32,
                    icc_profile: Some(s.subrange(p + 20, p + 20 + u32_at(s, p + 16))),
                },
                p + 20 + u32_at(s, p + 16),
            ),
        )
    } else {
        None
    }
}

impl ColorProfileChunk {
    /// Decodes a color profile payload at the reader's position.
    pub fn from_read(read: &mut ByteReader) -> (r: Result<ColorProfileChunk, ChunkError>)
        ensures
            final(read).data@ == old(read).data@,
            match r {
                Ok(c) => parse_color_profile(old(read).data@, old(read).pos as int) == Some(
                    (c@, final(read).pos as int),
                ),
                Err(e) => parse_color_profile(old(read).data@, old(read).pos as int) == None::<
                    (ColorProfileModel, int),
                > && e == ChunkError::StreamRead,
            },
    {
        let profile_type = read.read_u16()?;
        let flags = read.read_u16()?;
        let fixed_gamma = read.read_i32()?;
        read.skip(8)?;
        let icc_profile = if profile_type == 2 {
            let len = read.read_u32()?;
            Some(read.read_bytes_u64(len as u64)?)
        } else {
            None
        };
        Ok(ColorProfileChunk { profile_type, flags, fixed_gamma, icc_profile })
    }
}

} // verus!
