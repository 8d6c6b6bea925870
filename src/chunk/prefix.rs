//! Decoding looks at no byte past the end of what it decodes: a decoder that
//! succeeds on a prefix of a buffer gives the same result on the whole buffer.

use vstd::prelude::*;
use crate::reader::{Header, string_at};
use super::cel_chunk::{parse_cel, parse_cel_content};
use super::cel_extra_chunk::parse_cel_extra;
use super::color_profile_chunk::parse_color_profile;
use super::frame_tags_chunk::{parse_frame_tag, parse_frame_tags, parse_frame_tags_chunk};
use super::layer_chunk::parse_layer;
use super::mask_chunk::parse_mask;
use super::palette_chunk::{parse_palette, parse_palette_entries, parse_palette_entry};
use super::palette_packet::{parse_packet, parse_packet_list, parse_packets};
use super::path_chunk::parse_path;
use super::slice_chunk::{parse_slice, parse_slice_key, parse_slice_keys};
use super::user_data_chunk::parse_user_data;
use super::parse_payload;

verus! {

proof fn lemma_same_bytes(t: Seq<u8>, s: Seq<u8>)
    requires
        t.is_prefix_of(s),
    ensures
        forall|i: int| 0 <= i < t.len() ==> #[trigger] t[i] == s[i],
{
    assert forall|i: int| 0 <= i < t.len() implies #[trigger] t[i] == s[i] by {
        assert(t[i] == s.subrange(0, t.len() as int)[i]);
    }
}

proof fn lemma_same_range(t: Seq<u8>, s: Seq<u8>, a: int, b: int)
    requires
        t.is_prefix_of(s),
        0 <= a <= b <= t.len(),
    ensures
        t.subrange(a, b) == s.subrange(a, b),
{
    lemma_same_bytes(t, s);
    assert(t.subrange(a, b) =~= s.subrange(a, b));
}

proof fn lemma_string_prefix(t: Seq<u8>, s: Seq<u8>, p: int)
    requires
        t.is_prefix_of(s),
        0 <= p,
        string_at(t, p) is Some,
    ensures
        string_at(s, p) == string_at(t, p),
        string_at(t, p)->Some_0.1 <= t.len(),
{
    lemma_same_bytes(t, s);
    lemma_same_range(t, s, p + 2, p + 2 + crate::reader::u16_at(t, p));
}

proof fn lemma_mask_prefix(t: Seq<u8>, s: Seq<u8>, p: int)
    requires
        t.is_prefix_of(s),
        0 <= p,
        parse_mask(t, p) is Some,
    ensures
        parse_mask(s, p) == parse_mask(t, p),
        parse_mask(t, p)->Some_0.1 <= t.len(),
{
    lemma_same_bytes(t, s);
    lemma_string_prefix(t, s, p + 16);
    let q = string_at(t, p + 16)->Some_0.1;
    let n = super::mask_chunk::mask_bitmap_len(
        crate::reader::u16_at(t, p + 4),
        crate::reader::u16_at(t, p + 6),
    );
    assert(n >= 0) by (nonlinear_arith)
        requires
            n == super::mask_chunk::mask_bitmap_len(
                crate::reader::u16_at(t, p + 4),
                crate::reader::u16_at(t, p + 6),
            ),
            crate::reader::u16_at(t, p + 4) >= 0,
            crate::reader::u16_at(t, p + 6) >= 0,
    ;
    lemma_same_range(t, s, q, q + n);
}

proof fn lemma_layer_prefix(t: Seq<u8>, s: Seq<u8>, p: int)
    requires
        t.is_prefix_of(s),
        0 <= p,
        parse_layer(t, p) is Some,
    ensures
        parse_layer(s, p) == parse_layer(t, p),
        parse_layer(t, p)->Some_0.1 <= t.len(),
{
    lemma_same_bytes(t, s);
    lemma_string_prefix(t, s, p + 16);
}

proof fn lemma_cel_prefix(t: Seq<u8>, s: Seq<u8>, p: int, size: int, header: Header)
    requires
        t.is_prefix_of(s),
        0 <= p,
        parse_cel(t, p, size, header) is Some,
    ensures
        parse_cel(s, p, size, header) == parse_cel(t, p, size, header),
        parse_cel(t, p, size, header)->Some_0.1 <= t.len(),
{
    lemma_same_bytes(t, s);
    let q = p + 16;
    let ty = crate::reader::u16_at(t, p + 7);
    let (_, e) = parse_cel_content(t, q, ty, size, header)->Some_0;
    if ty == 0 {
        let n = crate::reader::u16_at(t, q) * crate::reader::u16_at(t, q + 2)
            * header.spec_bytes_per_pixel();
        assert(n >= 0) by (nonlinear_arith)
            requires
                n == crate::reader::u16_at(t, q) * crate::reader::u16_at(t, q + 2)
                    * header.spec_bytes_per_pixel(),
                crate::reader::u16_at(t, q) >= 0,
                crate::reader::u16_at(t, q + 2) >= 0,
                header.spec_bytes_per_pixel() >= 0,
        ;
        lemma_same_range(t, s, q + 4, e);
    } else if ty == 2 {
        lemma_same_range(t, s, q + 4, e);
    } else if ty == 3 {
        lemma_same_range(t, s, q + 32, e);
    } else if ty != 1 {
        lemma_same_range(t, s, q, e);
    }
}

proof fn lemma_cel_extra_prefix(t: Seq<u8>, s: Seq<u8>, p: int)
    requires
        t.is_prefix_of(s),
        0 <= p,
        parse_cel_extra(t, p) is Some,
    ensures
        parse_cel_extra(s, p) == parse_cel_extra(t, p),
        parse_cel_extra(t, p)->Some_0.1 <= t.len(),
{
    lemma_same_bytes(t, s);
}

proof fn lemma_color_profile_prefix(t: Seq<u8>, s: Seq<u8>, p: int)
    requires
        t.is_prefix_of(s),
        0 <= p,
        parse_color_profile(t, p) is Some,
    ensures
        parse_color_profile(s, p) == parse_color_profile(t, p),
        parse_color_profile(t, p)->Some_0.1 <= t.len(),
{
    lemma_same_bytes(t, s);
    if crate::reader::u16_at(t, p) == 2 {
        lemma_same_range(t, s, p + 20, p + 20 + crate::reader::u32_at(t, p + 16));
    }
}

proof fn lemma_path_prefix(t: Seq<u8>, s: Seq<u8>, p: int, size: int)
    requires
        t.is_prefix_of(s),
        0 <= p,
        parse_path(t, p, size) is Some,
    ensures
        parse_path(s, p, size) == parse_path(t, p, size),
        parse_path(t, p, size)->Some_0.1 <= t.len(),
{
    lemma_same_range(t, s, p, p + size - 6);
}

proof fn lemma_user_data_prefix(t: Seq<u8>, s: Seq<u8>, p: int)
    requires
        t.is_prefix_of(s),
        0 <= p,
        parse_user_data(t, p) is Some,
    ensures
        parse_user_data(s, p) == parse_user_data(t, p),
        parse_user_data(t, p)->Some_0.1 <= t.len(),
{
    lemma_same_bytes(t, s);
    let flags = crate::reader::u32_at(t, p) as u32;
    let q = if flags & 1 != 0 {
        lemma_string_prefix(t, s, p + 4);
        string_at(t, p + 4)->Some_0.1
    } else {
        p + 4
    };
    if flags & 2 != 0 {
        lemma_same_range(t, s, q, q + 4);
    }
}

proof fn lemma_frame_tags_prefix(t: Seq<u8>, s: Seq<u8>, p: int, n: nat)
    requires
        t.is_prefix_of(s),
        0 <= p <= t.len(),
        parse_frame_tags(t, p, n) is Some,
    ensures
        parse_frame_tags(s, p, n) == parse_frame_tags(t, p, n),
        p <= parse_frame_tags(t, p, n)->Some_0.1 <= t.len(),
    decreases n,
{
    lemma_same_bytes(t, s);
    if n > 0 {
        let prev = parse_frame_tags(t, p, (n - 1) as nat);
        assert(prev is Some);
        lemma_frame_tags_prefix(t, s, p, (n - 1) as nat);
        let q = prev->Some_0.1;
        assert(parse_frame_tag(t, q) is Some);
        assert(q + 17 <= t.len());
        lemma_string_prefix(t, s, q + 17);
        assert(parse_frame_tag(s, q) == parse_frame_tag(t, q));
    }
}

proof fn lemma_palette_prefix(t: Seq<u8>, s: Seq<u8>, p: int, n: nat)
    requires
        t.is_prefix_of(s),
        0 <= p <= t.len(),
        parse_palette_entries(t, p, n) is Some,
    ensures
        parse_palette_entries(s, p, n) == parse_palette_entries(t, p, n),
        p <= parse_palette_entries(t, p, n)->Some_0.1 <= t.len(),
    decreases n,
{
    lemma_same_bytes(t, s);
    if n > 0 {
        lemma_palette_prefix(t, s, p, (n - 1) as nat);
        let q = parse_palette_entries(t, p, (n - 1) as nat)->Some_0.1;
        if (crate::reader::u16_at(t, q) as u16) & 1 != 0 {
            lemma_string_prefix(t, s, q + 6);
        }
        assert(parse_palette_entry(s, q) == parse_palette_entry(t, q));
    }
}

proof fn lemma_slice_keys_prefix(t: Seq<u8>, s: Seq<u8>, p: int, flags: u32, n: nat)
    requires
        t.is_prefix_of(s),
        0 <= p <= t.len(),
        parse_slice_keys(t, p, flags, n) is Some,
    ensures
        parse_slice_keys(s, p, flags, n) == parse_slice_keys(t, p, flags, n),
        p <= parse_slice_keys(t, p, flags, n)->Some_0.1 <= t.len(),
    decreases n,
{
    lemma_same_bytes(t, s);
    if n > 0 {
        lemma_slice_keys_prefix(t, s, p, flags, (n - 1) as nat);
        let q = parse_slice_keys(t, p, flags, (n - 1) as nat)->Some_0.1;
        assert(parse_slice_key(s, q, flags) == parse_slice_key(t, q, flags));
    }
}

proof fn lemma_packets_prefix(t: Seq<u8>, s: Seq<u8>, p: int, n: nat)
    requires
        t.is_prefix_of(s),
        0 <= p <= t.len(),
        parse_packets(t, p, n) is Some,
    ensures
        parse_packets(s, p, n) == parse_packets(t, p, n),
        p <= parse_packets(t, p, n)->Some_0.1 <= t.len(),
    decreases n,
{
    lemma_same_bytes(t, s);
    if n > 0 {
        lemma_packets_prefix(t, s, p, (n - 1) as nat);
        let q = parse_packets(t, p, (n - 1) as nat)->Some_0.1;
        let (k, _) = parse_packet(t, q)->Some_0;
        let (k2, _) = parse_packet(s, q)->Some_0;
        assert(k.colors =~= k2.colors);
        assert(parse_packet(s, q) == parse_packet(t, q));
    }
}

/// A payload that decodes from a prefix of a buffer decodes the same from the
/// whole buffer, and ends within the prefix.
pub proof fn lemma_payload_prefix(
    t: Seq<u8>,
    s: Seq<u8>,
    p: int,
    tag: int,
    size: int,
    header: Header,
)
    requires
        t.is_prefix_of(s),
        0 <= p,
        parse_payload(t, p, tag, size, header) is Some,
    ensures
        parse_payload(s, p, tag, size, header) == parse_payload(t, p, tag, size, header),
        parse_payload(t, p, tag, size, header)->Some_0.1 <= t.len(),
{
    lemma_same_bytes(t, s);
    if tag == 0x0004 || tag == 0x0011 {
        lemma_packets_prefix(t, s, p + 2, crate::reader::u16_at(t, p) as nat);
        assert(parse_packet_list(s, p) == parse_packet_list(t, p));
    } else if tag == 0x2004 {
        lemma_layer_prefix(t, s, p);
    } else if tag == 0x2005 {
        lemma_cel_prefix(t, s, p, size, header);
    } else if tag == 0x2006 {
        lemma_cel_extra_prefix(t, s, p);
    } else if tag == 0x2007 {
        lemma_color_profile_prefix(t, s, p);
    } else if tag == 0x2016 {
        lemma_mask_prefix(t, s, p);
    } else if tag == 0x2017 {
        lemma_path_prefix(t, s, p, size);
    } else if tag == 0x2018 {
        lemma_frame_tags_prefix(t, s, p + 10, crate::reader::u16_at(t, p) as nat);
        assert(parse_frame_tags_chunk(s, p) == parse_frame_tags_chunk(t, p));
    } else if tag == 0x2019 {
        lemma_palette_prefix(
            t,
            s,
            p + 20,
            super::palette_chunk::palette_entry_count(
                crate::reader::u32_at(t, p + 4),
                crate::reader::u32_at(t, p + 8),
            ) as nat,
        );
        assert(parse_palette(s, p) == parse_palette(t, p));
    } else if tag == 0x2020 {
        lemma_user_data_prefix(t, s, p);
    } else if tag == 0x2022 {
        lemma_string_prefix(t, s, p + 12);
        let q = string_at(t, p + 12)->Some_0.1;
        lemma_slice_keys_prefix(
            t,
            s,
            q,
            crate::reader::u32_at(t, p + 4) as u32,
            crate::reader::u32_at(t, p) as nat,
        );
        assert(parse_slice(s, p) == parse_slice(t, p));
    }
}

} // verus!
