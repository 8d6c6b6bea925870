use vstd::prelude::*;
use crate::reader::{ByteReader, ChunkError, u32_at, string_at};

verus! {

/// A user data chunk: text and a color attached to the item before it.
pub struct UserDataChunk {
    pub flags: u32,
    /// Present when bit 0 of the flags is set.
    pub text: Option<String>,
    /// Red, green, blue and alpha; present when bit 1 of the flags is set.
    pub color: Option<[u8; 4]>,
}

/// What a [`UserDataChunk`] holds, as mathematical values.
pub struct UserDataModel {
    pub flags: u32,
    pub text: Option<Seq<char>>,
    pub color: Option<Seq<u8>>,
}

impl View for UserDataChunk {
    type V = UserDataModel;

    open spec fn view(&self) -> UserDataModel {
        UserDataModel {
            flags: self.flags,
            text: match self.text {
                Some(t) => Some(t@),
                None => None,
            },
            color: match self.color {
                Some(c) => Some(c@),
                None => None,
            },
        }
    }
}

/// The user data record whose payload starts at `p`, and the position just
/// past it. Layout: flags (u32); with bit 0 a string; with bit 1 four bytes.
pub open spec fn parse_user_data(s: Seq<u8>, p: int) -> Option<(UserDataModel, int)> {
    if p + 4 > s.len() {
        None
    } else {
        let flags = u32_at(s, p) as u32;
        let text = if flags & 1 != 0 {
            string_at(s, p + 4)
        } else {
            Some((Seq::<char>::empty(), p + 4))
        };
        match text {
            Some((t, q)) => if flags & 2 != 0 && q + 4 > s.len() {
                None
            } else {
                Some(
                    (
                        UserDataModel {
                            flags,
                            text: if flags & 1 != 0 {
                                Some(t)
                            } else {
                                None
                            },
                            color: if flags & 2 != 0 {
                                Some(s.subrange(q, q + 4))
                            } else {
                                None
                            },
                        },
                        if flags & 2 != 0 {
                            q + 4
                        } else {
                            q
                        },
                    ),
                )
            },
            None => None,
        }
    }
}

impl UserDataChunk {
    /// Decodes a user data payload at the reader's position.
    pub fn from_read(read: &mut ByteReader) -> (r: Result<UserDataChunk, ChunkError>)
        ensures
            final(read).data@ == old(read).data@,
            match r {
                Ok(c) => parse_user_data(old(read).data@, old(read).pos as int) == Some(
                    (c@, final(read).pos as int),
                ),
                Err(e) => parse_user_data(old(read).data@, old(read).pos as int) == None::<
                    (UserDataModel, int),
                > && e == ChunkError::StreamRead,
            },
    {
        let flags = read.read_u32()?;
        let text = if flags & 1 != 0 {
            Some(read.read_string()?)
        } else {
            None
        };
        let color = if flags & 2 != 0 {
            let red = read.read_u8()?;
            let green = read.read_u8()?;
            let blue = read.read_u8()?;
            let alpha = read.read_u8()?;
            let c: [u8; 4] = [red, green, blue, alpha];
            assert(c@ =~= old(read).data@.subrange(final(read).pos - 4, final(read).pos as int));
            Some(c)
        } else {
            None
        };
        Ok(UserDataChunk { flags, text, color })
    }
}

} // verus!
