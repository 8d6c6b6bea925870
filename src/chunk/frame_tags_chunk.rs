use vstd::prelude::*;
use crate::reader::{ByteReader, ChunkError, u16_at, string_at};

verus! {

/// One tag: a named range of frames.
pub struct FrameTag {
    pub from_frame: u16,
    pub to_frame: u16,
    /// 0 forward, 1 reverse, 2 ping-pong, 3 ping-pong reverse.
    pub direction: u8,
    /// How many times the range plays; 0 for without end.
    pub repeat: u16,
    pub red: u8,
    pub green: u8,
    pub blue: u8,
    pub tag_name: String,
}

/// What a [`FrameTag`] holds, as mathematical values.
pub struct FrameTagModel {
    pub from_frame: u16,
    pub to_frame: u16,
    pub direction: u8,
    pub repeat: u16,
    pub red: u8,
    pub green: u8,
    pub blue: u8,
    pub tag_name: Seq<char>,
}

impl View for FrameTag {
    type V = FrameTagModel;

    open spec fn view(&self) -> FrameTagModel {
        FrameTagModel {
            from_frame: self.from_frame,
            to_frame: self.to_frame,
            direction: self.direction,
            repeat: self.repeat,
            red: self.red,
            green: self.green,
            blue: self.blue,
            tag_name: self.tag_name@,
        }
    }
}

/// A frame tags chunk: every tag of the sprite.
pub struct FrameTagsChunk {
    pub tags: Vec<FrameTag>,
}

/// The models of a sequence of tags.
pub open spec fn tag_models(v: Seq<FrameTag>) -> Seq<FrameTagModel> {
    v.map_values(|t: FrameTag| t@)
}

/// The tag at `p`, and the position just past it. Layout: from, to (u16),
/// direction (u8), repeat (u16), 6 reserved bytes, red, green, blue, one
/// unused byte, name.
pub open spec fn parse_frame_tag(s: Seq<u8>, p: int) -> Option<(FrameTagModel, int)> {
    if p + 17 <= s.len() {
        match string_at(s, p + 17) {
            Some((name, q)) => Some(
                (
                    FrameTagModel {
                        from_frame: u16_at(s, p) as u16,
                        to_frame: u16_at(s, p + 2) as u16,
                        direction: s[p + 4],
                        repeat: u16_at(s, p + 5) as u16,
                        red: s[p + 13],
                        green: s[p + 14],
                        blue: s[p + 15],
                        tag_name: name,
                    },
                    q,
                ),
            ),
            None => None,
        }
    } else {
        None
    }
}

/// `n` tags one after another from `p`, and the position just past them.
pub open spec fn parse_frame_tags(s: Seq<u8>, p: int, n: nat) -> Option<(Seq<FrameTagModel>, int)>
    decreases n,
{
    if n == 0 {
        Some((Seq::empty(), p))
    } else {
        match parse_frame_tags(s, p, (n - 1) as nat) {
            Some((tags, q)) => match parse_frame_tag(s, q) {
                Some((t, r)) => Some((tags.push(t), r)),
                None => None,
            },
            None => None,
        }
    }
}

/// The frame tags record whose payload starts at `p`, and the position just
/// past it. Layout: tag count (u16), 8 reserved bytes, the tags.
pub open spec fn parse_frame_tags_chunk(s: Seq<u8>, p: int) -> Option<(Seq<FrameTagModel>, int)> {
    if p + 10 <= s.len() {
        parse_frame_tags(s, p + 10, u16_at(s, p) as nat)
    } else {
        None
    }
}

/// Once a prefix of the tags fails to decode, so does every longer run.
proof fn lemma_frame_tags_fail(s: Seq<u8>, p: int, i: nat, n: nat)
    requires
        i <= n,
        parse_frame_tags(s, p, i) is None,
    ensures
        parse_frame_tags(s, p, n) is None,
    decreases n - i,
{
    if i < n {
        lemma_frame_tags_fail(s, p, i, (n - 1) as nat);
    }
}

impl FrameTag {
    /// Decodes one tag at the reader's position.
    pub fn from_read(read: &mut ByteReader) -> (r: Result<FrameTag, ChunkError>)
        ensures
            final(read).data@ == old(read).data@,
            match r {
                Ok(t) => parse_frame_tag(old(read).data@, old(read).pos as int) == Some(
                    (t@, final(read).pos as int),
                ),
                Err(e) => parse_frame_tag(old(read).data@, old(read).pos as int) is None && e
                    == ChunkError::StreamRead,
            },
    {
        let from_frame = read.read_u16()?;
        let to_frame = read.read_u16()?;
        let direction = read.read_u8()?;
        let repeat = read.read_u16()?;
        read.skip(6)?;
        let red = read.read_u8()?;
        let green = read.read_u8()?;
        let blue = read.read_u8()?;
        read.skip(1)?;
        let tag_name = read.read_string()?;
        Ok(FrameTag { from_frame, to_frame, direction, repeat, red, green, blue, tag_name })
    }
}

impl FrameTagsChunk {
    /// Decodes a frame tags payload at the reader's position.
    pub fn from_read(read: &mut ByteReader) -> (r: Result<FrameTagsChunk, ChunkError>)
        ensures
            final(read).data@ == old(read).data@,
            match r {
                Ok(c) => parse_frame_tags_chunk(old(read).data@, old(read).pos as int) == Some(
                    (tag_models(c.tags@), final(read).pos as int),
                ),
                Err(e) => parse_frame_tags_chunk(old(read).data@, old(read).pos as int) is None
                    && e == ChunkError::StreamRead,
            },
    {
        let ghost s = read.data@;
        let count = read.read_u16()?;
        read.skip(8)?;
        let ghost p0 = read.pos as int;
        let mut tags: Vec<FrameTag> = Vec::new();
        let mut i: u16 = 0;
        while i < count
            invariant
                read.data@ == s,
                s == old(read).data@,
                old(read).pos + 10 <= s.len(),
                p0 == old(read).pos + 10,
                count as int == u16_at(s, old(read).pos as int),
                i <= count,
                parse_frame_tags(s, p0, i as nat) == Some((tag_models(tags@), read.pos as int)),
            decreases count - i,
        {
            match FrameTag::from_read(read) {
                Ok(t) => {
                    proof {
                        assert(tag_models(tags@.push(t)) =~= tag_models(tags@).push(t@));
                    }
                    tags.push(t);
                    i = i + 1;
                },
                Err(e) => {
                    proof {
                        lemma_frame_tags_fail(s, p0, (i + 1) as nat, count as nat);
                    }
                    return Err(e);
                },
            }
        }
        Ok(FrameTagsChunk { tags })
    }
}

} // verus!
