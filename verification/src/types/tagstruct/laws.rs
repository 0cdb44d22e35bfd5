//! What holds of the wire format: a value that was written is read back as it was.

use vstd::prelude::*;
use crate::types::tagstruct::grammar::TAG_ARBITRARY;
use crate::types::tagstruct::grammar::TAG_BOOLEAN_FALSE;
use crate::types::tagstruct::grammar::TAG_BOOLEAN_TRUE;
use crate::types::tagstruct::grammar::TAG_CHANNEL_MAP;
use crate::types::tagstruct::grammar::TAG_CVOLUME;
use crate::types::tagstruct::grammar::TAG_FORMAT_INFO;
use crate::types::tagstruct::grammar::TAG_PROPLIST;
use crate::types::tagstruct::grammar::TAG_S64;
use crate::types::tagstruct::grammar::TAG_SAMPLE_SPEC;
use crate::types::tagstruct::grammar::TAG_STRING;
use crate::types::tagstruct::grammar::TAG_STRING_NULL;
use crate::types::tagstruct::grammar::TAG_U32;
use crate::types::tagstruct::grammar::TAG_U64;
use crate::types::tagstruct::grammar::TAG_U8;
use crate::types::tagstruct::grammar::TAG_USEC;
use crate::types::tagstruct::grammar::TAG_VOLUME;
use crate::types::tagstruct::grammar::ValueView;
use crate::types::tagstruct::grammar::is_tag;
use crate::types::tagstruct::grammar::lemma_first_nul_at;
use crate::types::tagstruct::grammar::lemma_read_arbitrary_bounds;
use crate::types::tagstruct::grammar::lemma_read_string_bounds;
use crate::types::tagstruct::grammar::parsed_shift;
use crate::types::tagstruct::grammar::spec_encode_arbitrary;
use crate::types::tagstruct::grammar::spec_encode_positions;
use crate::types::tagstruct::grammar::spec_encode_prop;
use crate::types::tagstruct::grammar::spec_encode_proplist;
use crate::types::tagstruct::grammar::spec_encode_props;
use crate::types::tagstruct::grammar::spec_encode_sample_spec;
use crate::types::tagstruct::grammar::spec_encode_string;
use crate::types::tagstruct::grammar::spec_encode_u32;
use crate::types::tagstruct::grammar::spec_encode_value;
use crate::types::tagstruct::grammar::spec_encode_volumes;
use crate::types::tagstruct::grammar::spec_positions;
use crate::types::tagstruct::grammar::spec_props_body;
use crate::types::tagstruct::grammar::spec_read;
use crate::types::tagstruct::grammar::spec_read_arbitrary;
use crate::types::tagstruct::grammar::spec_read_channel_map;
use crate::types::tagstruct::grammar::spec_read_cvolume;
use crate::types::tagstruct::grammar::spec_read_format_info;
use crate::types::tagstruct::grammar::spec_read_i64;
use crate::types::tagstruct::grammar::spec_read_proplist;
use crate::types::tagstruct::grammar::spec_read_sample_spec;
use crate::types::tagstruct::grammar::spec_read_sized_arbitrary;
use crate::types::tagstruct::grammar::spec_read_string;
use crate::types::tagstruct::grammar::spec_read_string_non_null;
use crate::types::tagstruct::grammar::spec_read_u32;
use crate::types::tagstruct::grammar::spec_read_u64;
use crate::types::tagstruct::grammar::spec_read_u8;
use crate::types::tagstruct::grammar::spec_read_usec;
use crate::types::tagstruct::grammar::spec_read_volume;
use crate::types::tagstruct::grammar::valid_value;
use crate::error::ErrorKind;
use crate::lex::lex_lt;
use crate::string::no_nul;
use crate::types::channel_map::lemma_channel_position_roundtrip;
use crate::types::channel_map::ChannelPosition;
use crate::types::cvolume::spec_clamp_volume;
use crate::types::cvolume::valid_cvolume;
use crate::types::cvolume::VOLUME_MAX;
use crate::types::format_info::FormatInfoView;
use crate::types::proplist::lemma_insert_after_all;
use crate::types::proplist::valid_prop_key;
use crate::types::proplist::valid_proplist;
use crate::types::proplist::PropSeq;
use crate::types::proplist::MAX_PROP_SIZE;
use crate::types::sample_spec::lemma_downgrade_properties;
use crate::types::sample_spec::valid_sample_spec;
use crate::types::sample_spec::SampleSpecView;
use crate::types::sample_spec::CHANNELS_MAX;
use crate::types::tagstruct::writer::spec_downgrade_value;
use crate::wire::be_bytes_u32;
use crate::wire::be_u32;
use crate::wire::lemma_be_i64_roundtrip;
use crate::wire::lemma_be_u32_roundtrip;
use crate::wire::lemma_be_u64_roundtrip;

verus! {

/// A string without nul bytes is read back, whatever follows it.
pub proof fn lemma_string_roundtrip(s: Seq<u8>, rest: Seq<u8>)
    requires
        no_nul(s),
    ensures
        spec_encode_string(s).len() == s.len() + 2,
        spec_read_string_non_null(spec_encode_string(s) + rest) == Ok::<(Seq<u8>, int), ErrorKind>(
            (s, s.len() as int + 2),
        ),
        spec_read_string(spec_encode_string(s) + rest) == Ok::<(Option<Seq<u8>>, int), ErrorKind>(
            (Some(s), s.len() as int + 2),
        ),
{
    let bytes = spec_encode_string(s) + rest;
    let body = bytes.skip(1);
    assert(body =~= s + seq![0u8] + rest);
    assert forall|i: int| 0 <= i < s.len() implies body[i] != 0 by {
        assert(body[i] == s[i]);
    }
    lemma_first_nul_at(body, s.len() as int);
    assert(body.take(s.len() as int) =~= s);
}

/// An unsigned 32 bit value is read back, whatever follows it.
pub proof fn lemma_u32_roundtrip(n: u32, rest: Seq<u8>)
    ensures
        spec_encode_u32(n).len() == 5,
        spec_read_u32(spec_encode_u32(n) + rest) == Ok::<(u32, int), ErrorKind>((n, 5)),
{
    let bytes = spec_encode_u32(n) + rest;
    lemma_be_u32_roundtrip(n, rest);
    assert(bytes.skip(1) =~= be_bytes_u32(n) + rest);
}

/// A blob whose length fits in 32 bits is read back, whatever follows it.
pub proof fn lemma_arbitrary_roundtrip(b: Seq<u8>, rest: Seq<u8>)
    requires
        b.len() <= u32::MAX,
    ensures
        spec_encode_arbitrary(b).len() == b.len() + 5,
        spec_read_arbitrary(spec_encode_arbitrary(b) + rest) == Ok::<(Seq<u8>, int), ErrorKind>(
            (b, b.len() as int + 5),
        ),
        spec_read_sized_arbitrary(spec_encode_arbitrary(b) + rest, b.len() as u32) == Ok::<
            (Seq<u8>, int),
            ErrorKind,
        >((b, b.len() as int + 5)),
{
    let bytes = spec_encode_arbitrary(b) + rest;
    let body = bytes.skip(1);
    lemma_be_u32_roundtrip(b.len() as u32, b + rest);
    assert(body =~= be_bytes_u32(b.len() as u32) + (b + rest));
    assert(body.subrange(4, 4 + b.len() as int) =~= b);
}

/// The numbers of channel positions are read back as the positions, whatever follows them.
pub proof fn lemma_positions_roundtrip(m: Seq<ChannelPosition>, rest: Seq<u8>)
    ensures
        spec_positions(spec_encode_positions(m) + rest, m.len()) == Ok::<
            Seq<ChannelPosition>,
            ErrorKind,
        >(m),
    decreases m.len(),
{
    if m.len() > 0 {
        let bytes = spec_encode_positions(m) + rest;
        lemma_channel_position_roundtrip(m[0]);
        assert(bytes[0] == m[0].spec_as_u8());
        assert(bytes.skip(1) =~= spec_encode_positions(m.skip(1)) + rest);
        lemma_positions_roundtrip(m.skip(1), rest);
        assert(seq![m[0]] + m.skip(1) =~= m);
    } else {
        assert(m =~= Seq::<ChannelPosition>::empty());
    }
}

/// The bytes of `c` volumes are 4 for each, and the 4 bytes of a channel hold its volume.
pub proof fn lemma_volumes_layout(c: Seq<u32>, rest: Seq<u8>, i: int)
    requires
        0 <= i < c.len(),
    ensures
        spec_encode_volumes(c).len() == 4 * c.len(),
        be_u32((spec_encode_volumes(c) + rest).skip(4 * i)) == c[i],
    decreases c.len(),
{
    lemma_volumes_len(c);
    lemma_volumes_len(c.drop_last());
    let all = spec_encode_volumes(c) + rest;
    if i == c.len() - 1 {
        lemma_be_u32_roundtrip(c.last(), rest);
        assert(all.skip(4 * i) =~= be_bytes_u32(c.last()) + rest);
    } else {
        lemma_volumes_layout(c.drop_last(), be_bytes_u32(c.last()) + rest, i);
        assert(all =~= spec_encode_volumes(c.drop_last()) + (be_bytes_u32(c.last()) + rest));
    }
}

/// The bytes of `c` volumes are 4 for each.
pub proof fn lemma_volumes_len(c: Seq<u32>)
    ensures
        spec_encode_volumes(c).len() == 4 * c.len(),
    decreases c.len(),
{
    if c.len() > 0 {
        lemma_volumes_len(c.drop_last());
    }
}

/// The bytes of the entries of a list are those of its first entry and those of the others.
pub proof fn lemma_props_front(p: PropSeq)
    requires
        p.len() > 0,
    ensures
        spec_encode_props(p) == spec_encode_prop(p[0]) + spec_encode_props(p.skip(1)),
    decreases p.len(),
{
    if p.len() == 1 {
        assert(p.drop_last() =~= PropSeq::empty());
        assert(p.skip(1) =~= PropSeq::empty());
        assert(spec_encode_props(p) =~= spec_encode_prop(p[0]) + spec_encode_props(p.skip(1)));
    } else {
        lemma_props_front(p.drop_last());
        assert(p.drop_last().skip(1) =~= p.skip(1).drop_last());
        assert(p.skip(1).last() == p.last());
        assert(p.drop_last()[0] == p[0]);
        assert(spec_encode_props(p) =~= spec_encode_prop(p[0]) + spec_encode_props(p.skip(1)));
    }
}

/// One entry with a valid key and a value within the limit is read and inserted, and reading
/// goes on behind it.
#[verifier::rlimit(40)]
pub proof fn lemma_prop_entry_read(key: Seq<u8>, value: Seq<u8>, tail: Seq<u8>, acc: PropSeq)
    requires
        valid_prop_key(key),
        value.len() <= MAX_PROP_SIZE,
    ensures
        spec_encode_prop((key, value)).len() == key.len() + value.len() + 12,
        spec_props_body(spec_encode_prop((key, value)) + tail, acc) == parsed_shift(
            spec_encode_prop((key, value)).len() as int,
            spec_props_body(tail, crate::types::proplist::spec_insert(acc, key, value)),
        ),
{
    let bytes = spec_encode_prop((key, value)) + tail;
    let after_len = spec_encode_arbitrary(value) + tail;
    let after_key = spec_encode_u32(value.len() as u32) + after_len;
    let n = key.len() as int + 2;
    let n3 = value.len() as int + 5;
    assert(bytes =~= spec_encode_string(key) + after_key);
    assert(spec_read_string(bytes) == Ok::<(Option<Seq<u8>>, int), ErrorKind>((Some(key), n))) by {
        lemma_string_roundtrip(key, after_key);
    }
    assert(bytes.skip(n) =~= after_key) by {
        lemma_string_roundtrip(key, after_key);
    }
    assert(spec_read_u32(after_key) == Ok::<(u32, int), ErrorKind>((value.len() as u32, 5))) by {
        lemma_u32_roundtrip(value.len() as u32, after_len);
    }
    assert(bytes.skip(n + 5) =~= after_len) by {
        lemma_u32_roundtrip(value.len() as u32, after_len);
    }
    assert(spec_read_sized_arbitrary(after_len, value.len() as u32) == Ok::<
        (Seq<u8>, int),
        ErrorKind,
    >((value, n3))) by {
        lemma_arbitrary_roundtrip(value, tail);
    }
    assert(bytes.skip(n + 5 + n3) =~= tail) by {
        lemma_arbitrary_roundtrip(value, tail);
    }
    assert(spec_encode_prop((key, value)).len() == n + 5 + n3) by {
        lemma_string_roundtrip(key, after_key);
        lemma_u32_roundtrip(value.len() as u32, after_len);
        lemma_arbitrary_roundtrip(value, tail);
    }
}

/// The entries of a valid list from index `i` on, followed by the null string, are read back
/// into the entries before them as the whole list.
#[verifier::rlimit(40)]
pub proof fn lemma_props_roundtrip(p: PropSeq, i: int, rest: Seq<u8>)
    requires
        valid_proplist(p),
        0 <= i <= p.len(),
    ensures
        spec_props_body(
            spec_encode_props(p.skip(i)) + seq![TAG_STRING_NULL] + rest,
            p.take(i),
        ) == Ok::<(PropSeq, int), ErrorKind>((p, spec_encode_props(p.skip(i)).len() as int + 1)),
    decreases p.len() - i,
{
    let bytes = spec_encode_props(p.skip(i)) + seq![TAG_STRING_NULL] + rest;
    if i == p.len() {
        assert(p.skip(i) =~= PropSeq::empty());
        assert(p.take(i) =~= p);
        assert(bytes[0] == TAG_STRING_NULL);
    } else {
        let key = p[i].0;
        let value = p[i].1;
        let tail = spec_encode_props(p.skip(i + 1)) + seq![TAG_STRING_NULL] + rest;
        assert(valid_prop_key(key));
        assert(value.len() <= MAX_PROP_SIZE);
        assert(bytes =~= spec_encode_prop((key, value)) + tail) by {
            lemma_props_front(p.skip(i));
            assert(p.skip(i)[0] == p[i]);
            assert(p.skip(i).skip(1) =~= p.skip(i + 1));
        }
        assert(spec_encode_props(p.skip(i)).len() == spec_encode_prop((key, value)).len()
            + spec_encode_props(p.skip(i + 1)).len()) by {
            lemma_props_front(p.skip(i));
            assert(p.skip(i)[0] == p[i]);
            assert(p.skip(i).skip(1) =~= p.skip(i + 1));
        }
        let before = p.take(i);
        assert(crate::types::proplist::spec_insert(before, key, value) == p.take(i + 1)) by {
            assert forall|j: int| #![trigger before[j]] 0 <= j < before.len() implies lex_lt(
                before[j].0,
                key,
            ) by {
                assert(before[j] == p[j]);
            }
            lemma_insert_after_all(before, key, value);
            assert(before.push((key, value)) =~= p.take(i + 1));
        }
        lemma_prop_entry_read(key, value, tail, before);
        lemma_props_roundtrip(p, i + 1, rest);
    }
}

/// A valid property list is read back, whatever follows it.
pub proof fn lemma_proplist_roundtrip(p: PropSeq, rest: Seq<u8>)
    requires
        valid_proplist(p),
    ensures
        spec_encode_proplist(p).len() == spec_encode_props(p).len() + 2,
        spec_read_proplist(spec_encode_proplist(p) + rest) == Ok::<(PropSeq, int), ErrorKind>(
            (p, spec_encode_proplist(p).len() as int),
        ),
{
    let bytes = spec_encode_proplist(p) + rest;
    lemma_props_roundtrip(p, 0, rest);
    assert(p.skip(0) =~= p);
    assert(p.take(0) =~= PropSeq::empty());
    assert(bytes.skip(1) =~= spec_encode_props(p) + seq![TAG_STRING_NULL] + rest);
}

/// A valid sample specification is read back, whatever follows it.
pub proof fn lemma_sample_spec_roundtrip(s: SampleSpecView, rest: Seq<u8>)
    requires
        valid_sample_spec(s),
    ensures
        spec_encode_sample_spec(s).len() == 7,
        spec_read_sample_spec(spec_encode_sample_spec(s) + rest) == Ok::<
            (SampleSpecView, int),
            ErrorKind,
        >((s, 7)),
{
    let bytes = spec_encode_sample_spec(s) + rest;
    crate::types::sample_spec::lemma_sample_format_roundtrip(s.format);
    lemma_be_u32_roundtrip(s.sample_rate, rest);
    let body = bytes.skip(1);
    assert(body[0] == s.format.spec_as_u8());
    assert(body[1] == s.channels);
    assert(body.skip(2) =~= be_bytes_u32(s.sample_rate) + rest);
}

/// A channel map of at most `CHANNELS_MAX` positions is read back, whatever follows it.
pub proof fn lemma_channel_map_roundtrip(m: Seq<ChannelPosition>, rest: Seq<u8>)
    requires
        m.len() <= CHANNELS_MAX,
    ensures
        spec_read_channel_map(spec_encode_value(ValueView::ChannelMap(m)) + rest) == Ok::<
            (Seq<ChannelPosition>, int),
            ErrorKind,
        >((m, m.len() as int + 2)),
        spec_encode_value(ValueView::ChannelMap(m)).len() == m.len() + 2,
{
    let bytes = spec_encode_value(ValueView::ChannelMap(m)) + rest;
    lemma_positions_roundtrip(m, rest);
    let body = bytes.skip(1);
    assert(body[0] == m.len() as u8);
    assert(body.skip(1) =~= spec_encode_positions(m) + rest);
}

/// A list of 1 to `CHANNELS_MAX` volumes in range is read back, whatever follows it.
#[verifier::rlimit(40)]
pub proof fn lemma_cvolume_roundtrip(c: Seq<u32>, rest: Seq<u8>)
    requires
        c.len() >= 1,
        valid_cvolume(c),
    ensures
        spec_read_cvolume(spec_encode_value(ValueView::CVolume(c)) + rest) == Ok::<
            (Seq<u32>, int),
            ErrorKind,
        >((c, 4 * c.len() as int + 2)),
        spec_encode_value(ValueView::CVolume(c)).len() == 4 * c.len() + 2,
{
    let bytes = spec_encode_value(ValueView::CVolume(c)) + rest;
    lemma_volumes_len(c);
    let body = bytes.skip(1);
    assert(body[0] == c.len() as u8);
    assert(body.len() >= 1 + 4 * c.len());
    let read = Seq::new(c.len(), |i: int| spec_clamp_volume(be_u32(body.skip(1 + 4 * i))));
    assert forall|i: int| 0 <= i < c.len() implies read[i] == c[i] by {
        lemma_volumes_layout(c, rest, i);
        assert(body.skip(1 + 4 * i) =~= (spec_encode_volumes(c) + rest).skip(4 * i));
        assert(c[i] <= VOLUME_MAX);
    }
    assert(read =~= c);
}

/// A format info with a valid property list is read back, whatever follows it.
pub proof fn lemma_format_info_roundtrip(f: FormatInfoView, rest: Seq<u8>)
    requires
        valid_proplist(f.props),
    ensures
        spec_read_format_info(spec_encode_value(ValueView::FormatInfo(f)) + rest) == Ok::<
            (FormatInfoView, int),
            ErrorKind,
        >((f, spec_encode_value(ValueView::FormatInfo(f)).len() as int)),
{
    let bytes = spec_encode_value(ValueView::FormatInfo(f)) + rest;
    crate::types::format_info::lemma_format_encoding_roundtrip(f.encoding);
    lemma_proplist_roundtrip(f.props, rest);
    let body = bytes.skip(1);
    assert(body[0] == TAG_U8);
    assert(body.skip(1)[0] == f.encoding.spec_as_u8());
    assert(body.skip(2) =~= spec_encode_proplist(f.props) + rest);
    assert(spec_read_u8(body) == Ok::<(u8, int), ErrorKind>((f.encoding.spec_as_u8(), 2)));
}

/// An integer of 64 bits is read back, whatever follows it.
pub proof fn lemma_u64_roundtrip(n: u64, rest: Seq<u8>)
    ensures
        spec_read_u64(seq![TAG_U64] + crate::wire::be_bytes_u64(n) + rest) == Ok::<
            (u64, int),
            ErrorKind,
        >((n, 9)),
        spec_read_usec(seq![TAG_USEC] + crate::wire::be_bytes_u64(n) + rest) == Ok::<
            (u64, int),
            ErrorKind,
        >((n, 9)),
        crate::wire::be_bytes_u64(n).len() == 8,
{
    lemma_be_u64_roundtrip(n, rest);
    assert((seq![TAG_U64] + crate::wire::be_bytes_u64(n) + rest).skip(1)
        =~= crate::wire::be_bytes_u64(n) + rest);
    assert((seq![TAG_USEC] + crate::wire::be_bytes_u64(n) + rest).skip(1)
        =~= crate::wire::be_bytes_u64(n) + rest);
}

/// A signed integer of 64 bits is read back, whatever follows it.
pub proof fn lemma_i64_roundtrip(n: i64, rest: Seq<u8>)
    ensures
        spec_read_i64(seq![TAG_S64] + crate::wire::be_bytes_i64(n) + rest) == Ok::<
            (i64, int),
            ErrorKind,
        >((n, 9)),
        crate::wire::be_bytes_i64(n).len() == 8,
{
    lemma_be_i64_roundtrip(n, rest);
    assert((seq![TAG_S64] + crate::wire::be_bytes_i64(n) + rest).skip(1)
        =~= crate::wire::be_bytes_i64(n) + rest);
}

/// A single volume in range is read back, whatever follows it.
pub proof fn lemma_volume_roundtrip(raw: u32, rest: Seq<u8>)
    requires
        raw <= VOLUME_MAX,
    ensures
        spec_read_volume(seq![TAG_VOLUME] + be_bytes_u32(raw) + rest) == Ok::<
            (u32, int),
            ErrorKind,
        >((raw, 5)),
{
    lemma_be_u32_roundtrip(raw, rest);
    assert((seq![TAG_VOLUME] + be_bytes_u32(raw) + rest).skip(1) =~= be_bytes_u32(raw) + rest);
}

/// Read as any value, a string that was written is read back.
proof fn lemma_read_written_string(s: Seq<u8>, rest: Seq<u8>)
    requires
        no_nul(s),
    ensures
        spec_read(spec_encode_value(ValueView::String(s)) + rest) == Some(
            Ok::<(ValueView, int), ErrorKind>((ValueView::String(s), spec_encode_value(ValueView::String(s)).len() as int)),
        ),
{
    let bytes = spec_encode_value(ValueView::String(s)) + rest;
    assert(bytes[0] == TAG_STRING);
    lemma_string_roundtrip(s, rest);
}

/// Read as any value, an unsigned 32 bit integer that was written is read back.
proof fn lemma_read_written_u32(n: u32, rest: Seq<u8>)
    ensures
        spec_read(spec_encode_value(ValueView::U32(n)) + rest) == Some(
            Ok::<(ValueView, int), ErrorKind>((ValueView::U32(n), spec_encode_value(ValueView::U32(n)).len() as int)),
        ),
{
    let bytes = spec_encode_value(ValueView::U32(n)) + rest;
    assert(bytes[0] == TAG_U32);
    lemma_u32_roundtrip(n, rest);
}

/// Read as any value, an unsigned 64 bit integer that was written is read back.
proof fn lemma_read_written_u64(n: u64, rest: Seq<u8>)
    ensures
        spec_read(spec_encode_value(ValueView::U64(n)) + rest) == Some(
            Ok::<(ValueView, int), ErrorKind>((ValueView::U64(n), spec_encode_value(ValueView::U64(n)).len() as int)),
        ),
{
    let bytes = spec_encode_value(ValueView::U64(n)) + rest;
    assert(bytes[0] == TAG_U64);
    lemma_u64_roundtrip(n, rest);
}

/// Read as any value, a signed 64 bit integer that was written is read back.
proof fn lemma_read_written_s64(n: i64, rest: Seq<u8>)
    ensures
        spec_read(spec_encode_value(ValueView::S64(n)) + rest) == Some(
            Ok::<(ValueView, int), ErrorKind>((ValueView::S64(n), spec_encode_value(ValueView::S64(n)).len() as int)),
        ),
{
    let bytes = spec_encode_value(ValueView::S64(n)) + rest;
    assert(bytes[0] == TAG_S64);
    lemma_i64_roundtrip(n, rest);
}

/// Read as any value, a sample specification that was written is read back.
proof fn lemma_read_written_sample_spec(s: SampleSpecView, rest: Seq<u8>)
    requires
        valid_sample_spec(s),
    ensures
        spec_read(spec_encode_value(ValueView::SampleSpec(s)) + rest) == Some(
            Ok::<(ValueView, int), ErrorKind>((ValueView::SampleSpec(s), spec_encode_value(ValueView::SampleSpec(s)).len() as int)),
        ),
{
    let bytes = spec_encode_value(ValueView::SampleSpec(s)) + rest;
    assert(bytes[0] == TAG_SAMPLE_SPEC);
    lemma_sample_spec_roundtrip(s, rest);
}

/// Read as any value, a blob that was written is read back.
proof fn lemma_read_written_arbitrary(b: Seq<u8>, rest: Seq<u8>)
    requires
        b.len() <= u32::MAX,
    ensures
        spec_read(spec_encode_value(ValueView::Arbitrary(b)) + rest) == Some(
            Ok::<(ValueView, int), ErrorKind>((ValueView::Arbitrary(b), spec_encode_value(ValueView::Arbitrary(b)).len() as int)),
        ),
{
    let bytes = spec_encode_value(ValueView::Arbitrary(b)) + rest;
    assert(bytes[0] == TAG_ARBITRARY);
    lemma_arbitrary_roundtrip(b, rest);
}

/// Read as any value, a number of microseconds that was written is read back.
proof fn lemma_read_written_usec(n: u64, rest: Seq<u8>)
    ensures
        spec_read(spec_encode_value(ValueView::Usec(n)) + rest) == Some(
            Ok::<(ValueView, int), ErrorKind>((ValueView::Usec(n), spec_encode_value(ValueView::Usec(n)).len() as int)),
        ),
{
    let bytes = spec_encode_value(ValueView::Usec(n)) + rest;
    assert(bytes[0] == TAG_USEC);
    lemma_u64_roundtrip(n, rest);
}

/// Read as any value, a channel map that was written is read back.
proof fn lemma_read_written_channel_map(m: Seq<ChannelPosition>, rest: Seq<u8>)
    requires
        m.len() <= CHANNELS_MAX,
    ensures
        spec_read(spec_encode_value(ValueView::ChannelMap(m)) + rest) == Some(
            Ok::<(ValueView, int), ErrorKind>((ValueView::ChannelMap(m), spec_encode_value(ValueView::ChannelMap(m)).len() as int)),
        ),
{
    let bytes = spec_encode_value(ValueView::ChannelMap(m)) + rest;
    assert(bytes[0] == TAG_CHANNEL_MAP);
    lemma_channel_map_roundtrip(m, rest);
}

/// Read as any value, a list of channel volumes that was written is read back.
proof fn lemma_read_written_cvolume(c: Seq<u32>, rest: Seq<u8>)
    requires
        c.len() >= 1 && valid_cvolume(c),
    ensures
        spec_read(spec_encode_value(ValueView::CVolume(c)) + rest) == Some(
            Ok::<(ValueView, int), ErrorKind>((ValueView::CVolume(c), spec_encode_value(ValueView::CVolume(c)).len() as int)),
        ),
{
    let bytes = spec_encode_value(ValueView::CVolume(c)) + rest;
    assert(bytes[0] == TAG_CVOLUME);
    lemma_cvolume_roundtrip(c, rest);
}

/// Read as any value, a property list that was written is read back.
proof fn lemma_read_written_proplist(p: PropSeq, rest: Seq<u8>)
    requires
        valid_proplist(p),
    ensures
        spec_read(spec_encode_value(ValueView::PropList(p)) + rest) == Some(
            Ok::<(ValueView, int), ErrorKind>((ValueView::PropList(p), spec_encode_value(ValueView::PropList(p)).len() as int)),
        ),
{
    let bytes = spec_encode_value(ValueView::PropList(p)) + rest;
    assert(bytes[0] == TAG_PROPLIST);
    lemma_proplist_roundtrip(p, rest);
}

/// Read as any value, a single volume that was written is read back.
proof fn lemma_read_written_volume(raw: u32, rest: Seq<u8>)
    requires
        raw <= VOLUME_MAX,
    ensures
        spec_read(spec_encode_value(ValueView::Volume(raw)) + rest) == Some(
            Ok::<(ValueView, int), ErrorKind>((ValueView::Volume(raw), spec_encode_value(ValueView::Volume(raw)).len() as int)),
        ),
{
    let bytes = spec_encode_value(ValueView::Volume(raw)) + rest;
    assert(bytes[0] == TAG_VOLUME);
    lemma_volume_roundtrip(raw, rest);
}

/// Read as any value, a format info that was written is read back.
proof fn lemma_read_written_format_info(f: FormatInfoView, rest: Seq<u8>)
    requires
        valid_proplist(f.props),
    ensures
        spec_read(spec_encode_value(ValueView::FormatInfo(f)) + rest) == Some(
            Ok::<(ValueView, int), ErrorKind>((ValueView::FormatInfo(f), spec_encode_value(ValueView::FormatInfo(f)).len() as int)),
        ),
{
    let bytes = spec_encode_value(ValueView::FormatInfo(f)) + rest;
    assert(bytes[0] == TAG_FORMAT_INFO);
    lemma_format_info_roundtrip(f, rest);
}

/// Read as any value, a value that is only a tag, or a tag and one byte, is read back.
proof fn lemma_read_written_small(v: ValueView, rest: Seq<u8>)
    requires
        v is NullString || v is Boolean || v is U8,
    ensures
        spec_read(spec_encode_value(v) + rest) == Some(
            Ok::<(ValueView, int), ErrorKind>((v, spec_encode_value(v).len() as int)),
        ),
{
    let bytes = spec_encode_value(v) + rest;
    match v {
        ValueView::NullString => {
            assert(bytes[0] == TAG_STRING_NULL);
        },
        ValueView::Boolean(b) => {
            assert(bytes[0] == if b {
                TAG_BOOLEAN_TRUE
            } else {
                TAG_BOOLEAN_FALSE
            });
        },
        ValueView::U8(n) => {
            assert(bytes[0] == TAG_U8);
            assert(bytes.skip(1)[0] == n);
        },
        _ => {},
    }
}

/// Reading what was written for a valid value gives the value back, and takes exactly the
/// bytes that were written, whatever follows them.
pub proof fn lemma_value_roundtrip(v: ValueView, rest: Seq<u8>)
    requires
        valid_value(v),
    ensures
        spec_read(spec_encode_value(v) + rest) == Some(
            Ok::<(ValueView, int), ErrorKind>((v, spec_encode_value(v).len() as int)),
        ),
{
    match v {
        ValueView::String(s) => lemma_read_written_string(s, rest),
        ValueView::U32(n) => lemma_read_written_u32(n, rest),
        ValueView::U64(n) => lemma_read_written_u64(n, rest),
        ValueView::S64(n) => lemma_read_written_s64(n, rest),
        ValueView::SampleSpec(s) => lemma_read_written_sample_spec(s, rest),
        ValueView::Arbitrary(b) => lemma_read_written_arbitrary(b, rest),
        ValueView::Usec(n) => lemma_read_written_usec(n, rest),
        ValueView::ChannelMap(m) => lemma_read_written_channel_map(m, rest),
        ValueView::CVolume(c) => lemma_read_written_cvolume(c, rest),
        ValueView::PropList(p) => lemma_read_written_proplist(p, rest),
        ValueView::Volume(raw) => lemma_read_written_volume(raw, rest),
        ValueView::FormatInfo(f) => lemma_read_written_format_info(f, rest),
        _ => lemma_read_written_small(v, rest),
    }
}

/// Reading what was written for a valid value at a protocol version gives the value back as
/// that version knows it: a sample specification downgraded, every other value as it was.
pub proof fn lemma_value_roundtrip_versioned(v: ValueView, protocol_version: u16, rest: Seq<u8>)
    requires
        valid_value(v),
    ensures
        spec_read(spec_encode_value(spec_downgrade_value(v, protocol_version)) + rest) == Some(
            Ok::<(ValueView, int), ErrorKind>(
                (
                    spec_downgrade_value(v, protocol_version),
                    spec_encode_value(spec_downgrade_value(v, protocol_version)).len() as int,
                ),
            ),
        ),
        !(v is SampleSpec) || protocol_version >= 15 ==> spec_downgrade_value(v, protocol_version)
            == v,
{
    if let ValueView::SampleSpec(s) = v {
        lemma_downgrade_properties(s, protocol_version);
    }
    lemma_value_roundtrip(spec_downgrade_value(v, protocol_version), rest);
}

/// As many positions are read as were asked for, from as many bytes.
pub proof fn lemma_positions_len(s: Seq<u8>, count: nat)
    ensures
        spec_positions(s, count) matches Ok(m) ==> m.len() == count && count <= s.len(),
    decreases count,
{
    if count > 0 && s.len() > 0 {
        lemma_positions_len(s.skip(1), (count - 1) as nat);
    }
}

/// The entries that were read into valid entries are valid, and took at least one byte and no
/// more than there are.
#[verifier::rlimit(40)]
pub proof fn lemma_props_body_valid(s: Seq<u8>, acc: PropSeq)
    requires
        valid_proplist(acc),
    ensures
        spec_props_body(s, acc) matches Ok((p, n)) ==> valid_proplist(p) && 1 <= n <= s.len(),
    decreases s.len(),
{
    lemma_read_string_bounds(s);
    if let Ok((Some(key), n)) = spec_read_string(s) {
        if key.len() > 0 && crate::string::is_ascii_bytes(key) {
            if let Ok((len, n2)) = spec_read_u32(s.skip(n)) {
                if len <= MAX_PROP_SIZE {
                    lemma_read_arbitrary_bounds(s.skip(n + n2));
                    if let Ok((blob, n3)) = spec_read_sized_arbitrary(s.skip(n + n2), len) {
                        crate::types::proplist::lemma_insert_valid(acc, key, blob);
                        lemma_props_body_valid(
                            s.skip(n + n2 + n3),
                            crate::types::proplist::spec_insert(acc, key, blob),
                        );
                    }
                }
            }
        }
    }
}

/// A property list that was read is valid: its keys are not empty, ASCII and in strictly
/// increasing order, so that none occurs twice, and no value is above `MAX_PROP_SIZE`.
pub proof fn lemma_read_proplist_valid(s: Seq<u8>)
    ensures
        spec_read_proplist(s) matches Ok((p, n)) ==> valid_proplist(p) && 2 <= n <= s.len(),
{
    if s.len() > 0 && s[0] == TAG_PROPLIST {
        lemma_props_body_valid(s.skip(1), PropSeq::empty());
    }
}

/// A sample specification that was read is valid: between 1 and `CHANNELS_MAX` channels, and a
/// rate between 1 and `RATE_LIMIT`.
pub proof fn lemma_read_sample_spec_valid(s: Seq<u8>)
    ensures
        spec_read_sample_spec(s) matches Ok((v, n)) ==> valid_sample_spec(v) && n == 7 && n
            <= s.len(),
{
}

/// A channel map that was read holds at most `CHANNELS_MAX` positions.
pub proof fn lemma_read_channel_map_valid(s: Seq<u8>)
    ensures
        spec_read_channel_map(s) matches Ok((m, n)) ==> m.len() <= CHANNELS_MAX && n == m.len() + 2
            && n <= s.len(),
{
    if s.len() > 1 && s[0] == TAG_CHANNEL_MAP {
        lemma_positions_len(s.skip(2), s[1] as nat);
        assert(s.skip(1).skip(1) =~= s.skip(2));
    }
}

/// A list of channel volumes that was read holds between 1 and `CHANNELS_MAX` volumes, none of
/// them above `VOLUME_MAX`.
pub proof fn lemma_read_cvolume_valid(s: Seq<u8>)
    ensures
        spec_read_cvolume(s) matches Ok((c, n)) ==> 1 <= c.len() <= CHANNELS_MAX && valid_cvolume(c)
            && n == 4 * c.len() + 2 && n <= s.len(),
{
}

/// A value that was read is valid, and took at least one byte and no more than there are.
#[verifier::rlimit(40)]
pub proof fn lemma_read_valid(s: Seq<u8>)
    ensures
        spec_read(s) matches Some(Ok((v, n))) ==> valid_value(v) && 1 <= n <= s.len(),
{
    if s.len() > 0 {
        let tag = s[0];
        if tag == TAG_STRING {
            lemma_read_string_bounds(s);
        } else if tag == TAG_ARBITRARY {
            lemma_read_arbitrary_bounds(s);
        } else if tag == TAG_SAMPLE_SPEC {
            lemma_read_sample_spec_valid(s);
        } else if tag == TAG_CHANNEL_MAP {
            lemma_read_channel_map_valid(s);
        } else if tag == TAG_CVOLUME {
            lemma_read_cvolume_valid(s);
        } else if tag == TAG_PROPLIST {
            lemma_read_proplist_valid(s);
        } else if tag == TAG_FORMAT_INFO {
            let body = s.skip(1);
            if let Ok((raw, n)) = spec_read_u8(body) {
                lemma_read_proplist_valid(body.skip(n));
            }
        }
    }
}

/// A tag byte that is not one of the tags of the format is refused.
pub proof fn lemma_unknown_tag_rejected(s: Seq<u8>)
    requires
        s.len() > 0,
        !is_tag(s[0]),
    ensures
        spec_read(s) == Some(Err::<(ValueView, int), ErrorKind>(ErrorKind::InvalidTag(s[0]))),
{
}

/// A blob that announces more bytes than follow its length is refused.
pub proof fn lemma_truncated_blob_rejected(s: Seq<u8>)
    requires
        s.len() >= 5,
        s[0] == TAG_ARBITRARY,
        be_u32(s.skip(1)) > s.len() - 5,
    ensures
        spec_read(s) == Some(Err::<(ValueView, int), ErrorKind>(ErrorKind::UnexpectedEof)),
{
}

/// An entry of a property list whose announced length is not that of the blob that follows is
/// refused, whatever was read before and whatever follows.
pub proof fn lemma_prop_length_mismatch_rejected(
    key: Seq<u8>,
    announced: u32,
    blob: Seq<u8>,
    tail: Seq<u8>,
    acc: PropSeq,
)
    requires
        valid_prop_key(key),
        announced <= MAX_PROP_SIZE,
        blob.len() <= u32::MAX,
        blob.len() != announced,
    ensures
        spec_props_body(
            spec_encode_string(key) + spec_encode_u32(announced) + spec_encode_arbitrary(blob)
                + tail,
            acc,
        ) == Err::<(PropSeq, int), ErrorKind>(ErrorKind::PropLengthMismatch),
{
    let after_len = spec_encode_arbitrary(blob) + tail;
    let after_key = spec_encode_u32(announced) + after_len;
    let bytes = spec_encode_string(key) + spec_encode_u32(announced) + spec_encode_arbitrary(blob)
        + tail;
    let n = key.len() as int + 2;
    assert(bytes =~= spec_encode_string(key) + after_key);
    lemma_string_roundtrip(key, after_key);
    assert(bytes.skip(n) =~= after_key);
    lemma_u32_roundtrip(announced, after_len);
    assert(bytes.skip(n + 5) =~= after_len);
    lemma_arbitrary_roundtrip(blob, tail);
}

} // verus!
