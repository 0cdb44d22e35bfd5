//! What holds of the `CreatePlaybackStream` command: what was written is read back.

use vstd::prelude::*;
use crate::command::create_playback_stream::CreatePlaybackStream;
use crate::command::create_playback_stream::CreatePlaybackStreamView;
use crate::command::create_playback_stream::INVALID_INDEX;
use crate::command::create_playback_stream::PlaybackBody;
use crate::command::create_playback_stream::PlaybackHead;
use crate::command::create_playback_stream::PlaybackTail;
use crate::command::create_playback_stream::SinkSpecView;
use crate::command::create_playback_stream::spec_body_of;
use crate::command::create_playback_stream::spec_default_volumes;
use crate::command::create_playback_stream::spec_encode_body;
use crate::command::create_playback_stream::spec_encode_bool;
use crate::command::create_playback_stream::spec_encode_bool_since;
use crate::command::create_playback_stream::spec_encode_head;
use crate::command::create_playback_stream::spec_encode_optional_string;
use crate::command::create_playback_stream::spec_encode_playback;
use crate::command::create_playback_stream::spec_encode_tail;
use crate::command::create_playback_stream::spec_head_of;
use crate::command::create_playback_stream::spec_mute_preference;
use crate::command::create_playback_stream::spec_playback_from_wire;
use crate::command::create_playback_stream::spec_read_body;
use crate::command::create_playback_stream::spec_read_head;
use crate::command::create_playback_stream::spec_read_playback;
use crate::command::create_playback_stream::spec_read_tail;
use crate::command::create_playback_stream::spec_select_sink;
use crate::command::create_playback_stream::spec_tail_of;
use crate::command::create_playback_stream::spec_take_bool_since;
use crate::command::create_playback_stream::spec_take_formats;
use crate::command::create_playback_stream::spec_wire_flags;
use crate::types::tagstruct::grammar::Cursor;
use crate::types::tagstruct::grammar::Parsed;
use crate::types::tagstruct::grammar::TAG_BOOLEAN_FALSE;
use crate::types::tagstruct::grammar::TAG_BOOLEAN_TRUE;
use crate::types::tagstruct::grammar::TAG_STRING_NULL;
use crate::types::tagstruct::grammar::TAG_U8;
use crate::types::tagstruct::grammar::ValueView;
use crate::types::tagstruct::grammar::cursor_start;
use crate::types::tagstruct::grammar::cursor_take;
use crate::types::tagstruct::grammar::spec_encode_formats;
use crate::types::tagstruct::grammar::spec_encode_proplist;
use crate::types::tagstruct::grammar::spec_encode_sample_spec;
use crate::types::tagstruct::grammar::spec_encode_u32;
use crate::types::tagstruct::grammar::spec_encode_value;
use crate::types::tagstruct::grammar::spec_read_bool;
use crate::types::tagstruct::grammar::spec_read_channel_map;
use crate::types::tagstruct::grammar::spec_read_cvolume;
use crate::types::tagstruct::grammar::spec_read_formats;
use crate::types::tagstruct::grammar::spec_read_proplist;
use crate::types::tagstruct::grammar::spec_read_sample_spec;
use crate::types::tagstruct::grammar::spec_read_string;
use crate::types::tagstruct::grammar::spec_read_u32;
use crate::types::tagstruct::grammar::spec_read_u8;
use crate::error::ErrorKind;
use crate::stream::spec_has_flags;
use crate::stream::spec_set_flags;
use crate::string::no_nul;
use crate::types::cvolume::valid_cvolume;
use crate::types::format_info::FormatInfoView;
use crate::types::proplist::valid_proplist;
use crate::types::sample_spec::valid_sample_spec;
use crate::types::sample_spec::CHANNELS_MAX;
use crate::types::tagstruct::laws::lemma_channel_map_roundtrip;
use crate::types::tagstruct::laws::lemma_cvolume_roundtrip;
use crate::types::tagstruct::laws::lemma_format_info_roundtrip;
use crate::types::tagstruct::laws::lemma_proplist_roundtrip;
use crate::types::tagstruct::laws::lemma_sample_spec_roundtrip;
use crate::types::tagstruct::laws::lemma_string_roundtrip;
use crate::types::tagstruct::laws::lemma_u32_roundtrip;
use crate::types::tagstruct::writer::lemma_append_assoc;

verus! {

/// A boolean is read back, whatever follows it.
pub proof fn lemma_bool_roundtrip(b: bool, rest: Seq<u8>)
    ensures
        spec_encode_bool(b).len() == 1,
        spec_read_bool(spec_encode_bool(b) + rest) == Ok::<(bool, int), ErrorKind>((b, 1)),
{
    let bytes = spec_encode_bool(b) + rest;
    assert(bytes[0] == if b {
        TAG_BOOLEAN_TRUE
    } else {
        TAG_BOOLEAN_FALSE
    });
}

/// A string without nul bytes, and the null string, are read back, whatever follows them.
pub proof fn lemma_optional_string_roundtrip(s: Option<Seq<u8>>, rest: Seq<u8>)
    requires
        s matches Some(bytes) ==> no_nul(bytes),
    ensures
        spec_read_string(spec_encode_optional_string(s) + rest) == Ok::<
            (Option<Seq<u8>>, int),
            ErrorKind,
        >((s, spec_encode_optional_string(s).len() as int)),
{
    match s {
        Some(bytes) => {
            lemma_string_roundtrip(bytes, rest);
        },
        None => {
            assert((spec_encode_optional_string(s) + rest)[0] == TAG_STRING_NULL);
        },
    }
}

/// Whether the first fields of the command can be read back: the values are valid.
pub open spec fn valid_head(h: PlaybackHead) -> bool {
    &&& valid_sample_spec(h.sample_spec)
    &&& h.channel_map.len() <= CHANNELS_MAX
    &&& (h.sink_name matches Some(name) ==> no_nul(name))
    &&& h.cvolume.len() >= 1
    &&& valid_cvolume(h.cvolume)
}

/// Reading on behind a thing that was read back.
pub proof fn lemma_cursor_step<T>(c: Cursor, r: Parsed<T>, value: T, encoding: Seq<u8>, tail: Seq<u8>)
    requires
        c.failed is None,
        c.rest == encoding + tail,
        r == Ok::<(T, int), ErrorKind>((value, encoding.len() as int)),
    ensures
        cursor_take(c, r) == (
            Cursor { rest: tail, taken: c.taken + encoding.len(), failed: None },
            value,
        ),
{
    assert((encoding + tail).skip(encoding.len() as int) =~= tail);
}

/// The first fields of the command are read back from their bytes, whatever follows them.
#[verifier::rlimit(40)]
pub proof fn lemma_head_roundtrip(h: PlaybackHead, rest: Seq<u8>, taken: int)
    requires
        valid_head(h),
    ensures
        spec_read_head(Cursor { rest: spec_encode_head(h) + rest, taken, failed: None }) == (
            Cursor { rest, taken: taken + spec_encode_head(h).len(), failed: None },
            h,
        ),
{
    let e1 = spec_encode_sample_spec(h.sample_spec);
    let e2 = spec_encode_value(ValueView::ChannelMap(h.channel_map));
    let e3 = spec_encode_u32(h.sink_index);
    let e4 = spec_encode_optional_string(h.sink_name);
    let e5 = spec_encode_u32(h.maxlength);
    let e6 = spec_encode_bool(h.start_corked);
    let e7 = spec_encode_u32(h.tlength);
    let e8 = spec_encode_u32(h.prebuf);
    let e9 = spec_encode_u32(h.minreq);
    let e10 = spec_encode_u32(h.sync_id);
    let e11 = spec_encode_value(ValueView::CVolume(h.cvolume));
    let t11 = rest;
    let t10 = e11 + t11;
    let t9 = e10 + t10;
    let t8 = e9 + t9;
    let t7 = e8 + t8;
    let t6 = e7 + t7;
    let t5 = e6 + t6;
    let t4 = e5 + t5;
    let t3 = e4 + t4;
    let t2 = e3 + t3;
    let t1 = e2 + t2;
    let t0 = e1 + t1;
    let a1 = e1;
    let a2 = a1 + e2;
    let a3 = a2 + e3;
    let a4 = a3 + e4;
    let a5 = a4 + e5;
    let a6 = a5 + e6;
    let a7 = a6 + e7;
    let a8 = a7 + e8;
    let a9 = a8 + e9;
    let a10 = a9 + e10;
    let a11 = a10 + e11;
    assert(a11 == spec_encode_head(h));
    assert(a11 + rest == t0) by {
        lemma_append_assoc(a10, e11, t11);
        lemma_append_assoc(a9, e10, t10);
        lemma_append_assoc(a8, e9, t9);
        lemma_append_assoc(a7, e8, t8);
        lemma_append_assoc(a6, e7, t7);
        lemma_append_assoc(a5, e6, t6);
        lemma_append_assoc(a4, e5, t5);
        lemma_append_assoc(a3, e4, t4);
        lemma_append_assoc(a2, e3, t3);
        lemma_append_assoc(a1, e2, t2);
    }
    let c0 = Cursor { rest: t0, taken, failed: None };
    let c1 = Cursor { rest: t1, taken: c0.taken + e1.len(), failed: None };
    assert(cursor_take(c0, spec_read_sample_spec(c0.rest)) == (c1, h.sample_spec)) by {
        lemma_sample_spec_roundtrip(h.sample_spec, t1);
        lemma_cursor_step(c0, spec_read_sample_spec(c0.rest), h.sample_spec, e1, t1);
    }
    let c2 = Cursor { rest: t2, taken: c1.taken + e2.len(), failed: None };
    assert(cursor_take(c1, spec_read_channel_map(c1.rest)) == (c2, h.channel_map)) by {
        lemma_channel_map_roundtrip(h.channel_map, t2);
        lemma_cursor_step(c1, spec_read_channel_map(c1.rest), h.channel_map, e2, t2);
    }
    let c3 = Cursor { rest: t3, taken: c2.taken + e3.len(), failed: None };
    assert(cursor_take(c2, spec_read_u32(c2.rest)) == (c3, h.sink_index)) by {
        lemma_u32_roundtrip(h.sink_index, t3);
        lemma_cursor_step(c2, spec_read_u32(c2.rest), h.sink_index, e3, t3);
    }
    let c4 = Cursor { rest: t4, taken: c3.taken + e4.len(), failed: None };
    assert(cursor_take(c3, spec_read_string(c3.rest)) == (c4, h.sink_name)) by {
        lemma_optional_string_roundtrip(h.sink_name, t4);
        lemma_cursor_step(c3, spec_read_string(c3.rest), h.sink_name, e4, t4);
    }
    let c5 = Cursor { rest: t5, taken: c4.taken + e5.len(), failed: None };
    assert(cursor_take(c4, spec_read_u32(c4.rest)) == (c5, h.maxlength)) by {
        lemma_u32_roundtrip(h.maxlength, t5);
        lemma_cursor_step(c4, spec_read_u32(c4.rest), h.maxlength, e5, t5);
    }
    let c6 = Cursor { rest: t6, taken: c5.taken + e6.len(), failed: None };
    assert(cursor_take(c5, spec_read_bool(c5.rest)) == (c6, h.start_corked)) by {
        lemma_bool_roundtrip(h.start_corked, t6);
        lemma_cursor_step(c5, spec_read_bool(c5.rest), h.start_corked, e6, t6);
    }
    let c7 = Cursor { rest: t7, taken: c6.taken + e7.len(), failed: None };
    assert(cursor_take(c6, spec_read_u32(c6.rest)) == (c7, h.tlength)) by {
        lemma_u32_roundtrip(h.tlength, t7);
        lemma_cursor_step(c6, spec_read_u32(c6.rest), h.tlength, e7, t7);
    }
    let c8 = Cursor { rest: t8, taken: c7.taken + e8.len(), failed: None };
    assert(cursor_take(c7, spec_read_u32(c7.rest)) == (c8, h.prebuf)) by {
        lemma_u32_roundtrip(h.prebuf, t8);
        lemma_cursor_step(c7, spec_read_u32(c7.rest), h.prebuf, e8, t8);
    }
    let c9 = Cursor { rest: t9, taken: c8.taken + e9.len(), failed: None };
    assert(cursor_take(c8, spec_read_u32(c8.rest)) == (c9, h.minreq)) by {
        lemma_u32_roundtrip(h.minreq, t9);
        lemma_cursor_step(c8, spec_read_u32(c8.rest), h.minreq, e9, t9);
    }
    let c10 = Cursor { rest: t10, taken: c9.taken + e10.len(), failed: None };
    assert(cursor_take(c9, spec_read_u32(c9.rest)) == (c10, h.sync_id)) by {
        lemma_u32_roundtrip(h.sync_id, t10);
        lemma_cursor_step(c9, spec_read_u32(c9.rest), h.sync_id, e10, t10);
    }
    let c11 = Cursor { rest: t11, taken: c10.taken + e11.len(), failed: None };
    assert(cursor_take(c10, spec_read_cvolume(c10.rest)) == (c11, h.cvolume)) by {
        lemma_cvolume_roundtrip(h.cvolume, t11);
        lemma_cursor_step(c10, spec_read_cvolume(c10.rest), h.cvolume, e11, t11);
    }
    assert(c11.taken == taken + a11.len());
    assert(spec_read_head(c0) == (c11, h));
}

/// The fields that follow at every protocol version are read back from their bytes, whatever
/// follows them.
#[verifier::rlimit(80)]
pub proof fn lemma_body_roundtrip(b: PlaybackBody, rest: Seq<u8>, taken: int)
    requires
        valid_proplist(b.props),
    ensures
        spec_read_body(Cursor { rest: spec_encode_body(b) + rest, taken, failed: None }) == (
            Cursor { rest, taken: taken + spec_encode_body(b).len(), failed: None },
            b,
        ),
{
    let e1 = spec_encode_bool(b.no_remap_channels);
    let e2 = spec_encode_bool(b.no_remix_channels);
    let e3 = spec_encode_bool(b.fix_format);
    let e4 = spec_encode_bool(b.fix_rate);
    let e5 = spec_encode_bool(b.fix_channels);
    let e6 = spec_encode_bool(b.dont_move);
    let e7 = spec_encode_bool(b.variable_rate);
    let e8 = spec_encode_bool(b.muted);
    let e9 = spec_encode_bool(b.adjust_latency);
    let e10 = spec_encode_proplist(b.props);
    let t10 = rest;
    let t9 = e10 + t10;
    let t8 = e9 + t9;
    let t7 = e8 + t8;
    let t6 = e7 + t7;
    let t5 = e6 + t6;
    let t4 = e5 + t5;
    let t3 = e4 + t4;
    let t2 = e3 + t3;
    let t1 = e2 + t2;
    let t0 = e1 + t1;
    let a1 = e1;
    let a2 = a1 + e2;
    let a3 = a2 + e3;
    let a4 = a3 + e4;
    let a5 = a4 + e5;
    let a6 = a5 + e6;
    let a7 = a6 + e7;
    let a8 = a7 + e8;
    let a9 = a8 + e9;
    let a10 = a9 + e10;
    assert(a10 == spec_encode_body(b));
    assert(a10 + rest == t0) by {
        lemma_append_assoc(a9, e10, t10);
        lemma_append_assoc(a8, e9, t9);
        lemma_append_assoc(a7, e8, t8);
        lemma_append_assoc(a6, e7, t7);
        lemma_append_assoc(a5, e6, t6);
        lemma_append_assoc(a4, e5, t5);
        lemma_append_assoc(a3, e4, t4);
        lemma_append_assoc(a2, e3, t3);
        lemma_append_assoc(a1, e2, t2);
    }
    let c0 = Cursor { rest: t0, taken, failed: None };
    let c1 = Cursor { rest: t1, taken: c0.taken + e1.len(), failed: None };
    assert(cursor_take(c0, spec_read_bool(c0.rest)) == (c1, b.no_remap_channels)) by {
        lemma_bool_roundtrip(b.no_remap_channels, t1);
        lemma_cursor_step(c0, spec_read_bool(c0.rest), b.no_remap_channels, e1, t1);
    }
    let c2 = Cursor { rest: t2, taken: c1.taken + e2.len(), failed: None };
    assert(cursor_take(c1, spec_read_bool(c1.rest)) == (c2, b.no_remix_channels)) by {
        lemma_bool_roundtrip(b.no_remix_channels, t2);
        lemma_cursor_step(c1, spec_read_bool(c1.rest), b.no_remix_channels, e2, t2);
    }
    let c3 = Cursor { rest: t3, taken: c2.taken + e3.len(), failed: None };
    assert(cursor_take(c2, spec_read_bool(c2.rest)) == (c3, b.fix_format)) by {
        lemma_bool_roundtrip(b.fix_format, t3);
        lemma_cursor_step(c2, spec_read_bool(c2.rest), b.fix_format, e3, t3);
    }
    let c4 = Cursor { rest: t4, taken: c3.taken + e4.len(), failed: None };
    assert(cursor_take(c3, spec_read_bool(c3.rest)) == (c4, b.fix_rate)) by {
        lemma_bool_roundtrip(b.fix_rate, t4);
        lemma_cursor_step(c3, spec_read_bool(c3.rest), b.fix_rate, e4, t4);
    }
    let c5 = Cursor { rest: t5, taken: c4.taken + e5.len(), failed: None };
    assert(cursor_take(c4, spec_read_bool(c4.rest)) == (c5, b.fix_channels)) by {
        lemma_bool_roundtrip(b.fix_channels, t5);
        lemma_cursor_step(c4, spec_read_bool(c4.rest), b.fix_channels, e5, t5);
    }
    let c6 = Cursor { rest: t6, taken: c5.taken + e6.len(), failed: None };
    assert(cursor_take(c5, spec_read_bool(c5.rest)) == (c6, b.dont_move)) by {
        lemma_bool_roundtrip(b.dont_move, t6);
        lemma_cursor_step(c5, spec_read_bool(c5.rest), b.dont_move, e6, t6);
    }
    let c7 = Cursor { rest: t7, taken: c6.taken + e7.len(), failed: None };
    assert(cursor_take(c6, spec_read_bool(c6.rest)) == (c7, b.variable_rate)) by {
        lemma_bool_roundtrip(b.variable_rate, t7);
        lemma_cursor_step(c6, spec_read_bool(c6.rest), b.variable_rate, e7, t7);
    }
    let c8 = Cursor { rest: t8, taken: c7.taken + e8.len(), failed: None };
    assert(cursor_take(c7, spec_read_bool(c7.rest)) == (c8, b.muted)) by {
        lemma_bool_roundtrip(b.muted, t8);
        lemma_cursor_step(c7, spec_read_bool(c7.rest), b.muted, e8, t8);
    }
    let c9 = Cursor { rest: t9, taken: c8.taken + e9.len(), failed: None };
    assert(cursor_take(c8, spec_read_bool(c8.rest)) == (c9, b.adjust_latency)) by {
        lemma_bool_roundtrip(b.adjust_latency, t9);
        lemma_cursor_step(c8, spec_read_bool(c8.rest), b.adjust_latency, e9, t9);
    }
    let c10 = Cursor { rest: t10, taken: c9.taken + e10.len(), failed: None };
    assert(cursor_take(c9, spec_read_proplist(c9.rest)) == (c10, b.props)) by {
        lemma_proplist_roundtrip(b.props, t10);
        lemma_cursor_step(c9, spec_read_proplist(c9.rest), b.props, e10, t10);
    }
    assert(c10.taken == taken + a10.len());
    assert(spec_read_body(c0) == (c10, b));
}

/// The bytes of format infos are those of the first one and those of the others.
pub proof fn lemma_formats_front(formats: Seq<FormatInfoView>)
    requires
        formats.len() > 0,
    ensures
        spec_encode_formats(formats) == spec_encode_value(ValueView::FormatInfo(formats[0]))
            + spec_encode_formats(formats.skip(1)),
    decreases formats.len(),
{
    if formats.len() == 1 {
        assert(formats.drop_last() =~= Seq::<FormatInfoView>::empty());
        assert(formats.skip(1) =~= Seq::<FormatInfoView>::empty());
        assert(spec_encode_formats(formats) =~= spec_encode_value(
            ValueView::FormatInfo(formats[0]),
        ) + spec_encode_formats(formats.skip(1)));
    } else {
        lemma_formats_front(formats.drop_last());
        assert(formats.drop_last().skip(1) =~= formats.skip(1).drop_last());
        assert(formats.skip(1).last() == formats.last());
        assert(formats.drop_last()[0] == formats[0]);
        assert(spec_encode_formats(formats) =~= spec_encode_value(
            ValueView::FormatInfo(formats[0]),
        ) + spec_encode_formats(formats.skip(1)));
    }
}

/// Whether every format info has a valid property list.
pub open spec fn valid_formats(formats: Seq<FormatInfoView>) -> bool {
    forall|i: int| 0 <= i < formats.len() ==> valid_proplist((#[trigger] formats[i]).props)
}

/// Format infos with valid property lists are read back, whatever follows them.
pub proof fn lemma_formats_roundtrip(formats: Seq<FormatInfoView>, rest: Seq<u8>)
    requires
        valid_formats(formats),
    ensures
        spec_read_formats(spec_encode_formats(formats) + rest, formats.len()) == Ok::<
            (Seq<FormatInfoView>, int),
            ErrorKind,
        >((formats, spec_encode_formats(formats).len() as int)),
    decreases formats.len(),
{
    if formats.len() == 0 {
        assert(formats =~= Seq::<FormatInfoView>::empty());
    } else {
        let first = formats[0];
        let others = formats.skip(1);
        let tail = spec_encode_formats(others) + rest;
        let e = spec_encode_value(ValueView::FormatInfo(first));
        lemma_formats_front(formats);
        lemma_append_assoc(e, spec_encode_formats(others), rest);
        assert(valid_proplist(first.props));
        lemma_format_info_roundtrip(first, tail);
        assert((e + tail).skip(e.len() as int) =~= tail);
        assert(valid_formats(others)) by {
            assert forall|i: int| 0 <= i < others.len() implies valid_proplist(
                (#[trigger] others[i]).props,
            ) by {
                assert(others[i] == formats[i + 1]);
            }
        }
        lemma_formats_roundtrip(others, rest);
        assert(seq![first] + others =~= formats);
    }
}

/// What is read for the fields that later protocol versions added, when `t` was written: a
/// field that the version does not know is read as what stands for it.
pub open spec fn spec_tail_at(t: PlaybackTail, protocol_version: u16) -> PlaybackTail {
    PlaybackTail {
        volume_set: if protocol_version >= 14 {
            t.volume_set
        } else {
            true
        },
        early_requests: protocol_version >= 14 && t.early_requests,
        muted_set: protocol_version >= 15 && t.muted_set,
        dont_inhibit_auto_suspend: protocol_version >= 15 && t.dont_inhibit_auto_suspend,
        fail_on_suspend: protocol_version >= 15 && t.fail_on_suspend,
        relative_volume: protocol_version >= 17 && t.relative_volume,
        passthrough: protocol_version >= 18 && t.passthrough,
        formats: if protocol_version >= 21 {
            t.formats
        } else {
            Seq::empty()
        },
    }
}

/// A boolean that stands on the wire since some version is read back at later versions, and
/// read as what stands for it at earlier ones.
pub proof fn lemma_bool_since_roundtrip(
    b: bool,
    protocol_version: u16,
    since: u16,
    default: bool,
    rest: Seq<u8>,
    taken: int,
)
    ensures
        spec_take_bool_since(
            Cursor {
                rest: spec_encode_bool_since(b, protocol_version, since) + rest,
                taken,
                failed: None,
            },
            protocol_version,
            since,
            default,
        ) == (
            Cursor {
                rest,
                taken: taken + spec_encode_bool_since(b, protocol_version, since).len(),
                failed: None,
            },
            if protocol_version >= since {
                b
            } else {
                default
            },
        ),
{
    let e = spec_encode_bool_since(b, protocol_version, since);
    if protocol_version >= since {
        lemma_bool_roundtrip(b, rest);
        assert((e + rest).skip(1) =~= rest);
    } else {
        assert(e + rest =~= rest);
    }
}

/// The bytes of the formats with their count, since version 21.
pub open spec fn spec_encode_formats_since(formats: Seq<FormatInfoView>, protocol_version: u16) -> Seq<
    u8,
> {
    if protocol_version >= 21 {
        seq![TAG_U8, formats.len() as u8] + spec_encode_formats(formats)
    } else {
        Seq::empty()
    }
}

/// The formats are read back since version 21, and read as none before.
pub proof fn lemma_formats_since_roundtrip(
    formats: Seq<FormatInfoView>,
    protocol_version: u16,
    rest: Seq<u8>,
    taken: int,
)
    requires
        valid_formats(formats),
        formats.len() <= u8::MAX,
    ensures
        spec_take_formats(
            Cursor {
                rest: spec_encode_formats_since(formats, protocol_version) + rest,
                taken,
                failed: None,
            },
            protocol_version,
        ) == (
            Cursor {
                rest,
                taken: taken + spec_encode_formats_since(formats, protocol_version).len(),
                failed: None,
            },
            if protocol_version >= 21 {
                formats
            } else {
                Seq::empty()
            },
        ),
{
    let e = spec_encode_formats_since(formats, protocol_version);
    if protocol_version >= 21 {
        let count = seq![TAG_U8, formats.len() as u8];
        let tail = spec_encode_formats(formats) + rest;
        lemma_append_assoc(count, spec_encode_formats(formats), rest);
        assert((count + tail)[0] == TAG_U8);
        assert((count + tail).skip(1)[0] == formats.len() as u8);
        assert(spec_read_u8(count + tail) == Ok::<(u8, int), ErrorKind>(
            (formats.len() as u8, 2),
        ));
        assert((count + tail).skip(2) =~= tail);
        lemma_formats_roundtrip(formats, rest);
        assert(tail.skip(spec_encode_formats(formats).len() as int) =~= rest);
    } else {
        assert(e + rest =~= rest);
    }
}

/// The fields that later protocol versions added are read back from their bytes as far as the
/// version knows them, whatever follows them.
#[verifier::rlimit(40)]
pub proof fn lemma_tail_roundtrip(t: PlaybackTail, protocol_version: u16, rest: Seq<u8>, taken: int)
    requires
        valid_formats(t.formats),
        t.formats.len() <= u8::MAX,
    ensures
        spec_read_tail(
            Cursor { rest: spec_encode_tail(t, protocol_version) + rest, taken, failed: None },
            protocol_version,
        ) == (
            Cursor {
                rest,
                taken: taken + spec_encode_tail(t, protocol_version).len(),
                failed: None,
            },
            spec_tail_at(t, protocol_version),
        ),
{
    let p = protocol_version;
    let e1 = spec_encode_bool_since(t.volume_set, p, 14);
    let e2 = spec_encode_bool_since(t.early_requests, p, 14);
    let e3 = spec_encode_bool_since(t.muted_set, p, 15);
    let e4 = spec_encode_bool_since(t.dont_inhibit_auto_suspend, p, 15);
    let e5 = spec_encode_bool_since(t.fail_on_suspend, p, 15);
    let e6 = spec_encode_bool_since(t.relative_volume, p, 17);
    let e7 = spec_encode_bool_since(t.passthrough, p, 18);
    let e8 = spec_encode_formats_since(t.formats, p);
    let t8 = rest;
    let t7 = e8 + t8;
    let t6 = e7 + t7;
    let t5 = e6 + t6;
    let t4 = e5 + t5;
    let t3 = e4 + t4;
    let t2 = e3 + t3;
    let t1 = e2 + t2;
    let t0 = e1 + t1;
    let a1 = e1;
    let a2 = a1 + e2;
    let a3 = a2 + e3;
    let a4 = a3 + e4;
    let a5 = a4 + e5;
    let a6 = a5 + e6;
    let a7 = a6 + e7;
    let a8 = a7 + e8;
    assert(a8 == spec_encode_tail(t, p));
    lemma_append_assoc(a7, e8, t8);
    lemma_append_assoc(a6, e7, t7);
    lemma_append_assoc(a5, e6, t6);
    lemma_append_assoc(a4, e5, t5);
    lemma_append_assoc(a3, e4, t4);
    lemma_append_assoc(a2, e3, t3);
    lemma_append_assoc(a1, e2, t2);
    assert(a8 + rest == t0);
    let c0 = Cursor { rest: t0, taken, failed: None };
    let c1 = Cursor { rest: t1, taken: c0.taken + e1.len(), failed: None };
    let c2 = Cursor { rest: t2, taken: c1.taken + e2.len(), failed: None };
    let c3 = Cursor { rest: t3, taken: c2.taken + e3.len(), failed: None };
    let c4 = Cursor { rest: t4, taken: c3.taken + e4.len(), failed: None };
    let c5 = Cursor { rest: t5, taken: c4.taken + e5.len(), failed: None };
    let c6 = Cursor { rest: t6, taken: c5.taken + e6.len(), failed: None };
    let c7 = Cursor { rest: t7, taken: c6.taken + e7.len(), failed: None };
    let c8 = Cursor { rest: t8, taken: c7.taken + e8.len(), failed: None };
    lemma_bool_since_roundtrip(t.volume_set, p, 14, true, t1, c0.taken);
    lemma_bool_since_roundtrip(t.early_requests, p, 14, false, t2, c1.taken);
    lemma_bool_since_roundtrip(t.muted_set, p, 15, false, t3, c2.taken);
    lemma_bool_since_roundtrip(t.dont_inhibit_auto_suspend, p, 15, false, t4, c3.taken);
    lemma_bool_since_roundtrip(t.fail_on_suspend, p, 15, false, t5, c4.taken);
    lemma_bool_since_roundtrip(t.relative_volume, p, 17, false, t6, c5.taken);
    lemma_bool_since_roundtrip(t.passthrough, p, 18, false, t7, c6.taken);
    lemma_formats_since_roundtrip(t.formats, p, t8, c7.taken);
    assert(c8.taken == taken + a8.len());
}

/// The flags that stand on the wire at a protocol version.
pub open spec fn spec_wire_mask(protocol_version: u16) -> u32 {
    let always: u32 = 0x27F1;
    let since_14: u32 = if protocol_version >= 14 {
        0x4000
    } else {
        0
    };
    let since_15: u32 = if protocol_version >= 15 {
        0x28000
    } else {
        0
    };
    let since_17: u32 = if protocol_version >= 17 {
        0x40000
    } else {
        0
    };
    let since_18: u32 = if protocol_version >= 18 {
        0x80000
    } else {
        0
    };
    always | since_14 | since_15 | since_17 | since_18
}

/// Whether a command can be written at a protocol version so that it is read back as it is:
/// its values are valid, and it holds nothing that the version cannot say.
pub open spec fn spec_playback_representable(v: CreatePlaybackStreamView, protocol_version: u16) -> bool {
    &&& valid_sample_spec(v.sample_spec)
    &&& v.channel_map.len() <= CHANNELS_MAX
    &&& match v.sink_spec {
        Some(SinkSpecView::Index(index)) => index != INVALID_INDEX,
        Some(SinkSpecView::Name(name)) => no_nul(name),
        None => true,
    }
    &&& v.buffer_attr.fragsize == 0
    &&& v.stream_flags & !spec_wire_mask(protocol_version) == 0
    &&& (protocol_version >= 15 || v.muted != Some(false))
    &&& match v.volume {
        Some(volume) => volume.len() >= 1 && valid_cvolume(volume),
        None => protocol_version >= 14,
    }
    &&& valid_proplist(v.stream_props)
    &&& valid_formats(v.formats)
    &&& v.formats.len() <= u8::MAX
    &&& (protocol_version >= 21 || v.formats.len() == 0)
}

/// The flags that are made of the booleans for the flags of a set are the set, where the set
/// holds nothing but flags that stand on the wire.
#[verifier::rlimit(40)]
pub proof fn lemma_wire_flags(x: u32, protocol_version: u16)
    requires
        x & !spec_wire_mask(protocol_version) == 0,
    ensures
        ({
            let f0 = spec_set_flags(0, 0x0001, spec_has_flags(x, 0x0001));
            let f1 = spec_set_flags(f0, 0x0010, spec_has_flags(x, 0x0010));
            let f2 = spec_set_flags(f1, 0x0020, spec_has_flags(x, 0x0020));
            let f3 = spec_set_flags(f2, 0x0040, spec_has_flags(x, 0x0040));
            let f4 = spec_set_flags(f3, 0x0080, spec_has_flags(x, 0x0080));
            let f5 = spec_set_flags(f4, 0x0100, spec_has_flags(x, 0x0100));
            let f6 = spec_set_flags(f5, 0x0200, spec_has_flags(x, 0x0200));
            let f7 = spec_set_flags(f6, 0x0400, spec_has_flags(x, 0x0400));
            let f8 = spec_set_flags(f7, 0x2000, spec_has_flags(x, 0x2000));
            let f9 = spec_set_flags(f8, 0x4000, spec_has_flags(x, 0x4000));
            let f10 = spec_set_flags(f9, 0x8000, spec_has_flags(x, 0x8000));
            let f11 = spec_set_flags(f10, 0x20000, spec_has_flags(x, 0x20000));
            let f12 = spec_set_flags(f11, 0x40000, spec_has_flags(x, 0x40000));
            spec_set_flags(f12, 0x80000, spec_has_flags(x, 0x80000)) == x
        }),
        protocol_version < 14 ==> !spec_has_flags(x, 0x4000),
        protocol_version < 15 ==> !spec_has_flags(x, 0x8000) && !spec_has_flags(x, 0x20000),
        protocol_version < 17 ==> !spec_has_flags(x, 0x40000),
        protocol_version < 18 ==> !spec_has_flags(x, 0x80000),
{
    let m = spec_wire_mask(protocol_version);
    assert(m & !0xEE7F1u32 == 0) by (bit_vector)
        requires
            m == 0x27F1u32 | 0x4000u32 | 0x28000u32 | 0x40000u32 | 0x80000u32 || m == 0x27F1u32
                | 0u32 | 0u32 | 0u32 | 0u32 || m == 0x27F1u32 | 0x4000u32 | 0u32 | 0u32 | 0u32 || m
                == 0x27F1u32 | 0x4000u32 | 0x28000u32 | 0u32 | 0u32 || m == 0x27F1u32 | 0x4000u32
                | 0x28000u32 | 0x40000u32 | 0u32,
    ;
    assert(x & !0xEE7F1u32 == 0) by (bit_vector)
        requires
            x & !m == 0,
            m & !0xEE7F1u32 == 0,
    ;
    assert({
        let f0 = if x & 0x0001 == 0x0001 {
            0u32 | 0x0001
        } else {
            0u32 & !0x0001u32
        };
        let f1 = if x & 0x0010 == 0x0010 {
            f0 | 0x0010
        } else {
            f0 & !0x0010u32
        };
        let f2 = if x & 0x0020 == 0x0020 {
            f1 | 0x0020
        } else {
            f1 & !0x0020u32
        };
        let f3 = if x & 0x0040 == 0x0040 {
            f2 | 0x0040
        } else {
            f2 & !0x0040u32
        };
        let f4 = if x & 0x0080 == 0x0080 {
            f3 | 0x0080
        } else {
            f3 & !0x0080u32
        };
        let f5 = if x & 0x0100 == 0x0100 {
            f4 | 0x0100
        } else {
            f4 & !0x0100u32
        };
        let f6 = if x & 0x0200 == 0x0200 {
            f5 | 0x0200
        } else {
            f5 & !0x0200u32
        };
        let f7 = if x & 0x0400 == 0x0400 {
            f6 | 0x0400
        } else {
            f6 & !0x0400u32
        };
        let f8 = if x & 0x2000 == 0x2000 {
            f7 | 0x2000
        } else {
            f7 & !0x2000u32
        };
        let f9 = if x & 0x4000 == 0x4000 {
            f8 | 0x4000
        } else {
            f8 & !0x4000u32
        };
        let f10 = if x & 0x8000 == 0x8000 {
            f9 | 0x8000
        } else {
            f9 & !0x8000u32
        };
        let f11 = if x & 0x20000 == 0x20000 {
            f10 | 0x20000
        } else {
            f10 & !0x20000u32
        };
        let f12 = if x & 0x40000 == 0x40000 {
            f11 | 0x40000
        } else {
            f11 & !0x40000u32
        };
        let f13 = if x & 0x80000 == 0x80000 {
            f12 | 0x80000
        } else {
            f12 & !0x80000u32
        };
        f13 == x
    }) by (bit_vector)
        requires
            x & !0xEE7F1u32 == 0,
    ;
    if protocol_version < 14 {
        assert(m & 0x4000u32 == 0) by (bit_vector)
            requires
                m == 0x27F1u32 | 0u32 | 0u32 | 0u32 | 0u32,
        ;
        assert(x & 0x4000 != 0x4000) by (bit_vector)
            requires
                x & !m == 0,
                m & 0x4000u32 == 0,
        ;
    }
    if protocol_version < 15 {
        assert(m & 0x28000u32 == 0) by (bit_vector)
            requires
                m == 0x27F1u32 | 0u32 | 0u32 | 0u32 | 0u32 || m == 0x27F1u32 | 0x4000u32 | 0u32
                    | 0u32 | 0u32,
        ;
        assert(x & 0x8000 != 0x8000 && x & 0x20000 != 0x20000) by (bit_vector)
            requires
                x & !m == 0,
                m & 0x28000u32 == 0,
        ;
    }
    if protocol_version < 17 {
        assert(m & 0x40000u32 == 0) by (bit_vector)
            requires
                m == 0x27F1u32 | 0u32 | 0u32 | 0u32 | 0u32 || m == 0x27F1u32 | 0x4000u32 | 0u32
                    | 0u32 | 0u32 || m == 0x27F1u32 | 0x4000u32 | 0x28000u32 | 0u32 | 0u32,
        ;
        assert(x & 0x40000 != 0x40000) by (bit_vector)
            requires
                x & !m == 0,
                m & 0x40000u32 == 0,
        ;
    }
    if protocol_version < 18 {
        assert(m & 0x80000u32 == 0) by (bit_vector)
            requires
                m == 0x27F1u32 | 0u32 | 0u32 | 0u32 | 0u32 || m == 0x27F1u32 | 0x4000u32 | 0u32
                    | 0u32 | 0u32 || m == 0x27F1u32 | 0x4000u32 | 0x28000u32 | 0u32 | 0u32 || m
                    == 0x27F1u32 | 0x4000u32 | 0x28000u32 | 0x40000u32 | 0u32,
        ;
        assert(x & 0x80000 != 0x80000) by (bit_vector)
            requires
                x & !m == 0,
                m & 0x80000u32 == 0,
        ;
    }
}

/// The mute preference is read back, but for the preference not to mute before version 15,
/// which nothing on the wire tells.
pub proof fn lemma_mute_preference(muted: Option<bool>, protocol_version: u16)
    requires
        protocol_version >= 15 || muted != Some(false),
    ensures
        spec_mute_preference(muted == Some(true), protocol_version >= 15 && muted is Some)
            == muted,
{
    match muted {
        Some(true) => {},
        Some(false) => {},
        None => {},
    }
}

/// The sink that a command names is selected by the index and the name that stand for it.
pub proof fn lemma_select_sink(v: CreatePlaybackStreamView)
    requires
        v.sink_spec matches Some(SinkSpecView::Index(index)) ==> index != INVALID_INDEX,
    ensures
        spec_select_sink(spec_head_of(v).sink_index, spec_head_of(v).sink_name) == Ok::<
            Option<SinkSpecView>,
            ErrorKind,
        >(v.sink_spec),
{
    match v.sink_spec {
        Some(SinkSpecView::Index(index)) => {},
        Some(SinkSpecView::Name(name)) => {},
        None => {},
    }
}

/// The flags of a command that can be written at a protocol version are read back.
pub proof fn lemma_playback_flags(v: CreatePlaybackStreamView, protocol_version: u16)
    requires
        v.stream_flags & !spec_wire_mask(protocol_version) == 0,
    ensures
        spec_wire_flags(
            spec_head_of(v),
            spec_body_of(v),
            spec_tail_at(spec_tail_of(v), protocol_version),
        ) == v.stream_flags,
{
    lemma_wire_flags(v.stream_flags, protocol_version);
}

/// The fields on the wire of a command that can be written at a protocol version stand for the
/// command.
#[verifier::rlimit(40)]
pub proof fn lemma_playback_wire(v: CreatePlaybackStreamView, protocol_version: u16)
    requires
        spec_playback_representable(v, protocol_version),
    ensures
        spec_playback_from_wire(
            spec_head_of(v),
            spec_body_of(v),
            spec_tail_at(spec_tail_of(v), protocol_version),
        ) == Ok::<CreatePlaybackStreamView, ErrorKind>(v),
        valid_head(spec_head_of(v)),
{
    let head = spec_head_of(v);
    let body = spec_body_of(v);
    let tail = spec_tail_at(spec_tail_of(v), protocol_version);
    lemma_playback_flags(v, protocol_version);
    lemma_mute_preference(v.muted, protocol_version);
    lemma_select_sink(v);
    if v.volume is None {
        let volumes = spec_default_volumes(v.sample_spec.channels);
        assert(volumes.len() >= 1);
        assert(valid_cvolume(volumes));
    }
    if protocol_version < 21 {
        assert(v.formats =~= Seq::<FormatInfoView>::empty());
    }
    assert(tail.formats == v.formats);
    assert(v.buffer_attr == (crate::stream::BufferAttr {
        maxlength: head.maxlength,
        tlength: head.tlength,
        prebuf: head.prebuf,
        minreq: head.minreq,
        fragsize: 0,
    }));
}

/// A command that can be written at a protocol version is read back from its bytes at that
/// version as it is, whatever follows them.
#[verifier::rlimit(40)]
pub proof fn lemma_playback_roundtrip(v: CreatePlaybackStreamView, protocol_version: u16, rest: Seq<u8>)
    requires
        spec_playback_representable(v, protocol_version),
    ensures
        spec_read_playback(spec_encode_playback(v, protocol_version) + rest, protocol_version)
            == Ok::<(CreatePlaybackStreamView, int), ErrorKind>(
            (v, spec_encode_playback(v, protocol_version).len() as int),
        ),
{
    let head = spec_head_of(v);
    let body = spec_body_of(v);
    let tail = spec_tail_of(v);
    let eh = spec_encode_head(head);
    let eb = spec_encode_body(body);
    let et = spec_encode_tail(tail, protocol_version);
    lemma_playback_wire(v, protocol_version);
    let bytes = spec_encode_playback(v, protocol_version) + rest;
    assert(bytes == eh + (eb + (et + rest))) by {
        lemma_append_assoc(eh + eb, et, rest);
        lemma_append_assoc(eh, eb, et + rest);
    }
    let c0 = cursor_start(bytes);
    let c1 = Cursor { rest: eb + (et + rest), taken: eh.len() as int, failed: None };
    let c2 = Cursor { rest: et + rest, taken: eh.len() as int + eb.len() as int, failed: None };
    let c3 = Cursor { rest, taken: eh.len() as int + eb.len() as int + et.len() as int, failed: None };
    assert(spec_read_head(c0) == (c1, head)) by {
        lemma_head_roundtrip(head, eb + (et + rest), 0);
    }
    assert(spec_read_body(c1) == (c2, body)) by {
        lemma_body_roundtrip(body, et + rest, eh.len() as int);
    }
    assert(spec_read_tail(c2, protocol_version) == (c3, spec_tail_at(tail, protocol_version))) by {
        lemma_tail_roundtrip(tail, protocol_version, rest, eh.len() as int + eb.len() as int);
    }
}

/// A command that names its sink both by an index and by a name is refused, whatever else it
/// holds.
pub proof fn lemma_sink_index_and_name_rejected(
    head: PlaybackHead,
    body: PlaybackBody,
    tail: PlaybackTail,
)
    requires
        head.sink_index != INVALID_INDEX,
        head.sink_name is Some,
    ensures
        spec_playback_from_wire(head, body, tail) == Err::<CreatePlaybackStreamView, ErrorKind>(
            ErrorKind::SinkIndexAndName,
        ),
        ErrorKind::SinkIndexAndName.spec_code() == crate::error::PulseError::Invalid,
{
}

} // verus!
