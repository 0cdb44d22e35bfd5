//! The wire format of tagstructs, stated over sequences of bytes.
//!
//! A tagstruct is a flat concatenation of values, each a tag byte followed by the value's body.
//! `spec_encode_value` says which bytes stand for a value, `spec_read` which value stands at the
//! start of given bytes, and how many bytes it takes.

use vstd::prelude::*;
use crate::error::ErrorKind;
use crate::string::is_ascii_bytes;
use crate::string::no_nul;
use crate::types::channel_map::ChannelPosition;
use crate::types::cvolume::spec_clamp_volume;
use crate::types::cvolume::valid_cvolume;
use crate::types::cvolume::VOLUME_MAX;
use crate::types::format_info::FormatEncoding;
use crate::types::format_info::FormatInfoView;
use crate::types::proplist::spec_insert;
use crate::types::proplist::valid_proplist;
use crate::types::proplist::PropSeq;
use crate::types::proplist::MAX_PROP_SIZE;
use crate::types::sample_spec::valid_sample_spec;
use crate::types::sample_spec::SampleFormat;
use crate::types::sample_spec::SampleSpecView;
use crate::types::sample_spec::CHANNELS_MAX;
use crate::types::sample_spec::RATE_LIMIT;
use crate::wire::be_bytes_i64;
use crate::wire::be_bytes_u32;
use crate::wire::be_bytes_u64;
use crate::wire::be_i64;
use crate::wire::be_u32;
use crate::wire::be_u64;

verus! {

/// Tag of a nul-terminated string: `t`.
pub const TAG_STRING: u8 = 0x74;

/// Tag of the null string: `N`.
pub const TAG_STRING_NULL: u8 = 0x4E;

/// Tag of an unsigned 32 bit integer: `L`.
pub const TAG_U32: u8 = 0x4C;

/// Tag of an unsigned 8 bit integer: `B`.
pub const TAG_U8: u8 = 0x42;

/// Tag of an unsigned 64 bit integer: `R`.
pub const TAG_U64: u8 = 0x52;

/// Tag of a signed 64 bit integer: `r`.
pub const TAG_S64: u8 = 0x72;

/// Tag of a sample specification: `a`.
pub const TAG_SAMPLE_SPEC: u8 = 0x61;

/// Tag of a byte blob with prefix length: `x`.
pub const TAG_ARBITRARY: u8 = 0x78;

/// Tag of the boolean `true`: `1`.
pub const TAG_BOOLEAN_TRUE: u8 = 0x31;

/// Tag of the boolean `false`: `0`.
pub const TAG_BOOLEAN_FALSE: u8 = 0x30;

/// Tag of a time value: `T`. Reserved: no value of this kind is decoded.
pub const TAG_TIMEVAL: u8 = 0x54;

/// Tag of a number of microseconds: `U`.
pub const TAG_USEC: u8 = 0x55;

/// Tag of a channel map: `m`.
pub const TAG_CHANNEL_MAP: u8 = 0x6D;

/// Tag of a list of channel volumes: `v`.
pub const TAG_CVOLUME: u8 = 0x76;

/// Tag of a property list: `P`.
pub const TAG_PROPLIST: u8 = 0x50;

/// Tag of a single volume: `V`.
pub const TAG_VOLUME: u8 = 0x56;

/// Tag of a format info: `f`.
pub const TAG_FORMAT_INFO: u8 = 0x66;

/// Whether `tag` is one of the tags of the format.
pub open spec fn is_tag(tag: u8) -> bool {
    tag == TAG_STRING || tag == TAG_STRING_NULL || tag == TAG_U32 || tag == TAG_U8 || tag
        == TAG_U64 || tag == TAG_S64 || tag == TAG_SAMPLE_SPEC || tag == TAG_ARBITRARY || tag
        == TAG_BOOLEAN_TRUE || tag == TAG_BOOLEAN_FALSE || tag == TAG_TIMEVAL || tag == TAG_USEC
        || tag == TAG_CHANNEL_MAP || tag == TAG_CVOLUME || tag == TAG_PROPLIST || tag == TAG_VOLUME
        || tag == TAG_FORMAT_INFO
}

/// What a value of a tagstruct holds.
pub enum ValueView {
    /// The bytes of a string, without its terminator.
    String(Seq<u8>),
    /// A string that's a null pointer.
    NullString,
    U32(u32),
    U8(u8),
    U64(u64),
    S64(i64),
    SampleSpec(SampleSpecView),
    /// The bytes of a blob.
    Arbitrary(Seq<u8>),
    Boolean(bool),
    /// A number of microseconds.
    Usec(u64),
    ChannelMap(Seq<ChannelPosition>),
    /// The raw volumes of the channels.
    CVolume(Seq<u32>),
    /// The entries of a property list.
    PropList(PropSeq),
    /// The raw value of a volume.
    Volume(u32),
    FormatInfo(FormatInfoView),
}

/// Whether a value can be written and read back: its parts are in the ranges of the format.
pub open spec fn valid_value(v: ValueView) -> bool {
    match v {
        ValueView::String(s) => no_nul(s),
        ValueView::Arbitrary(b) => b.len() <= u32::MAX,
        ValueView::SampleSpec(s) => valid_sample_spec(s),
        ValueView::ChannelMap(m) => m.len() <= CHANNELS_MAX,
        ValueView::CVolume(c) => c.len() >= 1 && valid_cvolume(c),
        ValueView::PropList(p) => valid_proplist(p),
        ValueView::Volume(v) => v <= VOLUME_MAX,
        ValueView::FormatInfo(f) => valid_proplist(f.props),
        _ => true,
    }
}

/// The result of reading one thing from bytes: the thing and the number of bytes it takes, or
/// the reason for which the bytes are refused.
pub type Parsed<T> = Result<(T, int), ErrorKind>;

/// The same result for a thing that stands behind `n` bytes which are counted with it.
pub open spec fn parsed_shift<T>(n: int, r: Parsed<T>) -> Parsed<T> {
    match r {
        Ok((v, m)) => Ok((v, n + m)),
        Err(e) => Err(e),
    }
}

/// The same result, with the thing that was read seen as `f` of it.
pub open spec fn parsed_map<T, U>(r: Parsed<T>, f: spec_fn(T) -> U) -> Parsed<U> {
    match r {
        Ok((v, m)) => Ok((f(v), m)),
        Err(e) => Err(e),
    }
}

/// Where the reading of several things behind each other stands: the bytes that are left, the
/// number of bytes that were taken, and the reason for which reading failed, if it did. Once
/// reading has failed, nothing more is read.
pub struct Cursor {
    pub rest: Seq<u8>,
    pub taken: int,
    pub failed: Option<ErrorKind>,
}

/// The cursor before anything was read from `s`.
pub open spec fn cursor_start(s: Seq<u8>) -> Cursor {
    Cursor { rest: s, taken: 0, failed: None }
}

/// The cursor behind one more thing, of which `r` is what reading it from the rest gives, and
/// the thing. After a failure the thing is arbitrary.
pub open spec fn cursor_take<T>(c: Cursor, r: Parsed<T>) -> (Cursor, T) {
    if c.failed is Some {
        (c, arbitrary())
    } else {
        match r {
            Ok((v, n)) => (Cursor { rest: c.rest.skip(n), taken: c.taken + n, failed: None }, v),
            Err(e) => (Cursor { rest: c.rest, taken: c.taken, failed: Some(e) }, arbitrary()),
        }
    }
}

// ---------------------------------------------------------------------------------------------
// Writing
// ---------------------------------------------------------------------------------------------
/// The bytes of a string value: tag, bytes, terminator.
pub open spec fn spec_encode_string(s: Seq<u8>) -> Seq<u8> {
    seq![TAG_STRING] + s + seq![0u8]
}

/// The bytes of an unsigned 32 bit value.
pub open spec fn spec_encode_u32(n: u32) -> Seq<u8> {
    seq![TAG_U32] + be_bytes_u32(n)
}

/// The bytes of a blob: tag, length, content.
pub open spec fn spec_encode_arbitrary(b: Seq<u8>) -> Seq<u8> {
    seq![TAG_ARBITRARY] + be_bytes_u32(b.len() as u32) + b
}

/// The numbers of the positions of a channel map.
pub open spec fn spec_encode_positions(m: Seq<ChannelPosition>) -> Seq<u8> {
    Seq::new(m.len(), |i: int| m[i].spec_as_u8())
}

/// The raw volumes of all channels, 4 bytes each.
pub open spec fn spec_encode_volumes(c: Seq<u32>) -> Seq<u8>
    decreases c.len(),
{
    if c.len() == 0 {
        Seq::empty()
    } else {
        spec_encode_volumes(c.drop_last()) + be_bytes_u32(c.last())
    }
}

/// The bytes of one entry of a property list: the key as a string, the length of the value as an
/// unsigned 32 bit value, the value as a blob.
pub open spec fn spec_encode_prop(entry: (Seq<u8>, Seq<u8>)) -> Seq<u8> {
    spec_encode_string(entry.0) + spec_encode_u32(entry.1.len() as u32) + spec_encode_arbitrary(
        entry.1,
    )
}

/// The bytes of all entries of a property list, in their order.
pub open spec fn spec_encode_props(p: PropSeq) -> Seq<u8>
    decreases p.len(),
{
    if p.len() == 0 {
        Seq::empty()
    } else {
        spec_encode_props(p.drop_last()) + spec_encode_prop(p.last())
    }
}

/// The bytes of a property list: tag, entries, and a null string at the end.
pub open spec fn spec_encode_proplist(p: PropSeq) -> Seq<u8> {
    seq![TAG_PROPLIST] + spec_encode_props(p) + seq![TAG_STRING_NULL]
}

/// The bytes of a sample specification: tag, format, channels, rate.
pub open spec fn spec_encode_sample_spec(s: SampleSpecView) -> Seq<u8> {
    seq![TAG_SAMPLE_SPEC, s.format.spec_as_u8(), s.channels] + be_bytes_u32(s.sample_rate)
}

/// The bytes that stand for a value.
pub open spec fn spec_encode_value(v: ValueView) -> Seq<u8> {
    match v {
        ValueView::String(s) => spec_encode_string(s),
        ValueView::NullString => seq![TAG_STRING_NULL],
        ValueView::U32(n) => spec_encode_u32(n),
        ValueView::U8(n) => seq![TAG_U8, n],
        ValueView::U64(n) => seq![TAG_U64] + be_bytes_u64(n),
        ValueView::S64(n) => seq![TAG_S64] + be_bytes_i64(n),
        ValueView::SampleSpec(s) => spec_encode_sample_spec(s),
        ValueView::Arbitrary(b) => spec_encode_arbitrary(b),
        ValueView::Boolean(b) => if b {
            seq![TAG_BOOLEAN_TRUE]
        } else {
            seq![TAG_BOOLEAN_FALSE]
        },
        ValueView::Usec(n) => seq![TAG_USEC] + be_bytes_u64(n),
        ValueView::ChannelMap(m) => seq![TAG_CHANNEL_MAP, m.len() as u8] + spec_encode_positions(m),
        ValueView::CVolume(c) => seq![TAG_CVOLUME, c.len() as u8] + spec_encode_volumes(c),
        ValueView::PropList(p) => spec_encode_proplist(p),
        ValueView::Volume(v) => seq![TAG_VOLUME] + be_bytes_u32(v),
        ValueView::FormatInfo(f) => seq![TAG_FORMAT_INFO, TAG_U8, f.encoding.spec_as_u8()]
            + spec_encode_proplist(f.props),
    }
}

// ---------------------------------------------------------------------------------------------
// Reading
// ---------------------------------------------------------------------------------------------
/// The position of the first nul byte of `s`.
pub open spec fn spec_first_nul(s: Seq<u8>) -> Option<int>
    decreases s.len(),
{
    if s.len() == 0 {
        None
    } else if s[0] == 0 {
        Some(0)
    } else {
        match spec_first_nul(s.skip(1)) {
            Some(p) => Some(p + 1),
            None => None,
        }
    }
}

/// The first nul byte of `s`, if there is one, stands in `s` behind bytes that are not nul.
pub proof fn lemma_first_nul(s: Seq<u8>)
    ensures
        match spec_first_nul(s) {
            Some(p) => 0 <= p < s.len() && s[p] == 0 && no_nul(s.take(p)),
            None => no_nul(s),
        },
    decreases s.len(),
{
    if s.len() > 0 && s[0] != 0 {
        lemma_first_nul(s.skip(1));
        match spec_first_nul(s.skip(1)) {
            Some(p) => {
                assert(s.skip(1)[p] == s[p + 1]);
                let t = s.take(p + 1);
                assert forall|i: int| 0 <= i < t.len() implies #[trigger] t[i] != 0 by {
                    if i > 0 {
                        assert(s.skip(1).take(p)[i - 1] == s[i]);
                    }
                }
            },
            None => {
                assert forall|i: int| 0 <= i < s.len() implies s[i] != 0 by {
                    if i > 0 {
                        assert(s.skip(1)[i - 1] == s[i]);
                    }
                }
            },
        }
    } else if s.len() > 0 {
        assert(s.take(0).len() == 0);
    }
}

/// The nul byte behind bytes that are not nul is the first one.
pub proof fn lemma_first_nul_at(s: Seq<u8>, p: int)
    requires
        0 <= p < s.len(),
        s[p] == 0,
        forall|i: int| 0 <= i < p ==> s[i] != 0,
    ensures
        spec_first_nul(s) == Some(p),
    decreases p,
{
    if p > 0 {
        assert(s.skip(1)[p - 1] == s[p]);
        assert forall|i: int| 0 <= i < p - 1 implies s.skip(1)[i] != 0 by {
            assert(s.skip(1)[i] == s[i + 1]);
        }
        lemma_first_nul_at(s.skip(1), p - 1);
    }
}

/// Bytes without a nul byte have no first one.
pub proof fn lemma_first_nul_none(s: Seq<u8>)
    requires
        no_nul(s),
    ensures
        spec_first_nul(s) is None,
    decreases s.len(),
{
    if s.len() > 0 {
        assert forall|i: int| 0 <= i < s.skip(1).len() implies s.skip(1)[i] != 0 by {
            assert(s.skip(1)[i] == s[i + 1]);
        }
        lemma_first_nul_none(s.skip(1));
    }
}

/// Reads the body of a string: the bytes up to the first nul byte, which is taken too.
pub open spec fn spec_string_body(s: Seq<u8>) -> Parsed<Seq<u8>> {
    match spec_first_nul(s) {
        Some(p) => Ok((s.take(p), p + 1)),
        None => Err(ErrorKind::MissingTerminator),
    }
}

/// Reads one byte.
pub open spec fn spec_u8_body(s: Seq<u8>) -> Parsed<u8> {
    if s.len() < 1 {
        Err(ErrorKind::UnexpectedEof)
    } else {
        Ok((s[0], 1))
    }
}

/// Reads 4 bytes as an unsigned integer.
pub open spec fn spec_u32_body(s: Seq<u8>) -> Parsed<u32> {
    if s.len() < 4 {
        Err(ErrorKind::UnexpectedEof)
    } else {
        Ok((be_u32(s), 4))
    }
}

/// Reads 8 bytes as an unsigned integer.
pub open spec fn spec_u64_body(s: Seq<u8>) -> Parsed<u64> {
    if s.len() < 8 {
        Err(ErrorKind::UnexpectedEof)
    } else {
        Ok((be_u64(s), 8))
    }
}

/// Reads 8 bytes as a signed integer.
pub open spec fn spec_i64_body(s: Seq<u8>) -> Parsed<i64> {
    if s.len() < 8 {
        Err(ErrorKind::UnexpectedEof)
    } else {
        Ok((be_i64(s), 8))
    }
}

/// Reads the body of a blob: its length, then as many bytes.
pub open spec fn spec_arbitrary_body(s: Seq<u8>) -> Parsed<Seq<u8>> {
    if s.len() < 4 {
        Err(ErrorKind::UnexpectedEof)
    } else if s.len() - 4 < be_u32(s) {
        Err(ErrorKind::UnexpectedEof)
    } else {
        Ok((s.subrange(4, 4 + be_u32(s)), 4 + be_u32(s)))
    }
}

/// Reads the body of a sample specification: format, channels and rate are read, then checked
/// in this order.
pub open spec fn spec_sample_spec_body(s: Seq<u8>) -> Parsed<SampleSpecView> {
    if s.len() < 6 {
        Err(ErrorKind::UnexpectedEof)
    } else {
        let channels = s[1];
        let sample_rate = be_u32(s.skip(2));
        match SampleFormat::spec_from_u8(s[0]) {
            None => Err(ErrorKind::InvalidSampleFormat(s[0])),
            Some(format) => if channels == 0 || channels > CHANNELS_MAX {
                Err(ErrorKind::InvalidChannelCount(channels))
            } else if sample_rate == 0 || sample_rate > RATE_LIMIT {
                Err(ErrorKind::InvalidSampleRate(sample_rate))
            } else {
                Ok((SampleSpecView { format, channels, sample_rate }, 6))
            },
        }
    }
}

/// Reads `count` channel positions, one byte each, and refuses the first byte that is missing
/// or stands for no position.
pub open spec fn spec_positions(s: Seq<u8>, count: nat) -> Result<Seq<ChannelPosition>, ErrorKind>
    decreases count,
{
    if count == 0 {
        Ok(Seq::empty())
    } else if s.len() == 0 {
        Err(ErrorKind::UnexpectedEof)
    } else {
        match ChannelPosition::spec_from_u8(s[0]) {
            None => Err(ErrorKind::InvalidChannelPosition(s[0])),
            Some(p) => match spec_positions(s.skip(1), (count - 1) as nat) {
                Ok(rest) => Ok(seq![p] + rest),
                Err(e) => Err(e),
            },
        }
    }
}

/// The positions that were read before, followed by what is read next, if that does not fail.
pub open spec fn spec_positions_after(
    before: Seq<ChannelPosition>,
    next: Result<Seq<ChannelPosition>, ErrorKind>,
) -> Result<Seq<ChannelPosition>, ErrorKind> {
    match next {
        Ok(rest) => Ok(before + rest),
        Err(e) => Err(e),
    }
}

/// Reads the body of a channel map: the number of channels, then their positions.
pub open spec fn spec_channel_map_body(s: Seq<u8>) -> Parsed<Seq<ChannelPosition>> {
    if s.len() < 1 {
        Err(ErrorKind::UnexpectedEof)
    } else if s[0] > CHANNELS_MAX {
        Err(ErrorKind::ChannelMapTooLarge(s[0]))
    } else {
        match spec_positions(s.skip(1), s[0] as nat) {
            Ok(m) => Ok((m, 1 + s[0])),
            Err(e) => Err(e),
        }
    }
}

/// Reads the body of a list of channel volumes: the number of channels, then their raw volumes,
/// each of which is clamped.
pub open spec fn spec_cvolume_body(s: Seq<u8>) -> Parsed<Seq<u32>> {
    if s.len() < 1 {
        Err(ErrorKind::UnexpectedEof)
    } else if s[0] == 0 || s[0] > CHANNELS_MAX {
        Err(ErrorKind::InvalidVolumeCount(s[0]))
    } else if s.len() < 1 + 4 * s[0] {
        Err(ErrorKind::UnexpectedEof)
    } else {
        Ok((Seq::new(s[0] as nat, |i: int| spec_clamp_volume(be_u32(s.skip(1 + 4 * i)))), 1 + 4 * s[0]))
    }
}

/// Reads the body of a single volume, which is clamped.
pub open spec fn spec_volume_body(s: Seq<u8>) -> Parsed<u32> {
    if s.len() < 4 {
        Err(ErrorKind::UnexpectedEof)
    } else {
        Ok((spec_clamp_volume(be_u32(s)), 4))
    }
}

/// The error for a value of another kind than the one asked for.
pub open spec fn spec_mismatch(tag: u8) -> ErrorKind {
    if is_tag(tag) {
        ErrorKind::UnexpectedValue(tag)
    } else {
        ErrorKind::InvalidTag(tag)
    }
}

/// Reads a value that has to carry `tag`, with `body` for what follows the tag.
pub open spec fn spec_tagged<T>(s: Seq<u8>, tag: u8, body: spec_fn(Seq<u8>) -> Parsed<T>) -> Parsed<
    T,
> {
    if s.len() == 0 {
        Err(ErrorKind::UnexpectedEnd)
    } else if s[0] != tag {
        Err(spec_mismatch(s[0]))
    } else {
        parsed_shift(1, body(s.skip(1)))
    }
}

/// Reads a value that has to be an unsigned 32 bit integer.
pub open spec fn spec_read_u32(s: Seq<u8>) -> Parsed<u32> {
    spec_tagged(s, TAG_U32, |b: Seq<u8>| spec_u32_body(b))
}

/// Reads a value that has to be an unsigned 8 bit integer.
pub open spec fn spec_read_u8(s: Seq<u8>) -> Parsed<u8> {
    spec_tagged(s, TAG_U8, |b: Seq<u8>| spec_u8_body(b))
}

/// Reads a value that has to be an unsigned 64 bit integer.
pub open spec fn spec_read_u64(s: Seq<u8>) -> Parsed<u64> {
    spec_tagged(s, TAG_U64, |b: Seq<u8>| spec_u64_body(b))
}

/// Reads a value that has to be a signed 64 bit integer.
pub open spec fn spec_read_i64(s: Seq<u8>) -> Parsed<i64> {
    spec_tagged(s, TAG_S64, |b: Seq<u8>| spec_i64_body(b))
}

/// Reads a value that has to be a number of microseconds.
pub open spec fn spec_read_usec(s: Seq<u8>) -> Parsed<u64> {
    spec_tagged(s, TAG_USEC, |b: Seq<u8>| spec_u64_body(b))
}

/// Reads a value that has to be a blob.
pub open spec fn spec_read_arbitrary(s: Seq<u8>) -> Parsed<Seq<u8>> {
    spec_tagged(s, TAG_ARBITRARY, |b: Seq<u8>| spec_arbitrary_body(b))
}

/// Reads a value that has to be a string, and not the null string.
pub open spec fn spec_read_string_non_null(s: Seq<u8>) -> Parsed<Seq<u8>> {
    spec_tagged(s, TAG_STRING, |b: Seq<u8>| spec_string_body(b))
}

/// Reads a value that has to be a sample specification.
pub open spec fn spec_read_sample_spec(s: Seq<u8>) -> Parsed<SampleSpecView> {
    spec_tagged(s, TAG_SAMPLE_SPEC, |b: Seq<u8>| spec_sample_spec_body(b))
}

/// Reads a value that has to be a channel map.
pub open spec fn spec_read_channel_map(s: Seq<u8>) -> Parsed<Seq<ChannelPosition>> {
    spec_tagged(s, TAG_CHANNEL_MAP, |b: Seq<u8>| spec_channel_map_body(b))
}

/// Reads a value that has to be a list of channel volumes.
pub open spec fn spec_read_cvolume(s: Seq<u8>) -> Parsed<Seq<u32>> {
    spec_tagged(s, TAG_CVOLUME, |b: Seq<u8>| spec_cvolume_body(b))
}

/// Reads a value that has to be a single volume.
pub open spec fn spec_read_volume(s: Seq<u8>) -> Parsed<u32> {
    spec_tagged(s, TAG_VOLUME, |b: Seq<u8>| spec_volume_body(b))
}

/// Reads a value that has to be a boolean.
pub open spec fn spec_read_bool(s: Seq<u8>) -> Parsed<bool> {
    if s.len() == 0 {
        Err(ErrorKind::UnexpectedEnd)
    } else if s[0] == TAG_BOOLEAN_TRUE {
        Ok((true, 1))
    } else if s[0] == TAG_BOOLEAN_FALSE {
        Ok((false, 1))
    } else {
        Err(spec_mismatch(s[0]))
    }
}

/// Reads a value that has to be a string or the null string, which is read as `None`.
pub open spec fn spec_read_string(s: Seq<u8>) -> Parsed<Option<Seq<u8>>> {
    if s.len() == 0 {
        Err(ErrorKind::UnexpectedEnd)
    } else if s[0] == TAG_STRING_NULL {
        Ok((None, 1))
    } else if s[0] == TAG_STRING {
        parsed_shift(1, parsed_map(spec_string_body(s.skip(1)), |v: Seq<u8>| Some(v)))
    } else {
        Err(spec_mismatch(s[0]))
    }
}

/// A string that was read has no nul byte and takes at least two of the bytes that are there.
pub proof fn lemma_read_string_bounds(s: Seq<u8>)
    ensures
        spec_read_string(s) matches Ok((Some(key), n)) ==> 2 <= n <= s.len() && n == key.len() + 2
            && no_nul(key) && key == s.subrange(1, n - 1),
        spec_read_string(s) matches Ok((None, n)) ==> n == 1 && 1 <= s.len(),
        spec_read_string_non_null(s) matches Ok((key, n)) ==> spec_read_string(s) == Ok::<
            (Option<Seq<u8>>, int),
            ErrorKind,
        >((Some(key), n)),
{
    if s.len() > 0 && s[0] == TAG_STRING {
        lemma_first_nul(s.skip(1));
        match spec_first_nul(s.skip(1)) {
            Some(p) => {
                assert(s.skip(1).take(p) =~= s.subrange(1, p + 1));
            },
            None => {},
        }
    }
}

/// A blob that was read takes its tag, its length and its bytes, which are there.
pub proof fn lemma_read_arbitrary_bounds(s: Seq<u8>)
    ensures
        spec_read_arbitrary(s) matches Ok((blob, n)) ==> 5 <= n <= s.len() && n == blob.len() + 5
            && blob.len() == be_u32(s.skip(1)) && blob == s.subrange(5, n),
{
    if s.len() > 0 && s[0] == TAG_ARBITRARY {
        let b = s.skip(1);
        if b.len() >= 4 && b.len() - 4 >= be_u32(b) {
            assert(b.subrange(4, 4 + be_u32(b)) =~= s.subrange(5, 5 + be_u32(b)));
        }
    }
}

/// Reads a blob that has to be `expected_length` bytes long.
pub open spec fn spec_read_sized_arbitrary(s: Seq<u8>, expected_length: u32) -> Parsed<Seq<u8>> {
    match spec_read_arbitrary(s) {
        Ok((blob, n)) => if blob.len() != expected_length {
            Err(ErrorKind::PropLengthMismatch)
        } else {
            Ok((blob, n))
        },
        Err(e) => Err(e),
    }
}

/// Reads the entries of a property list up to the null string that ends it, and inserts them
/// into `acc` one after the other, so that of two entries with one key the later one stays.
///
/// Each entry is a key (a string that is not empty and ASCII), the length of the value (an
/// unsigned 32 bit value of at most `MAX_PROP_SIZE`) and the value (a blob of that length).
pub open spec fn spec_props_body(s: Seq<u8>, acc: PropSeq) -> Parsed<PropSeq>
    decreases s.len(),
    via spec_props_body_decreases
{
    match spec_read_string(s) {
        Err(e) => Err(e),
        Ok((None, n)) => Ok((acc, n)),
        Ok((Some(key), n)) => if key.len() == 0 {
            Err(ErrorKind::EmptyPropKey)
        } else if !is_ascii_bytes(key) {
            Err(ErrorKind::NonAsciiPropKey)
        } else {
            match spec_read_u32(s.skip(n)) {
                Err(e) => Err(e),
                Ok((len, n2)) => if len > MAX_PROP_SIZE {
                    Err(ErrorKind::PropTooLarge)
                } else {
                    match spec_read_sized_arbitrary(s.skip(n + n2), len) {
                        Err(e) => Err(e),
                        Ok((blob, n3)) => parsed_shift(
                            n + n2 + n3,
                            spec_props_body(s.skip(n + n2 + n3), spec_insert(acc, key, blob)),
                        ),
                    }
                },
            }
        },
    }
}

#[via_fn]
proof fn spec_props_body_decreases(s: Seq<u8>, acc: PropSeq) {
    lemma_read_string_bounds(s);
    if let Ok((Some(_), n)) = spec_read_string(s) {
        if let Ok((len, n2)) = spec_read_u32(s.skip(n)) {
            lemma_read_arbitrary_bounds(s.skip(n + n2));
        }
    }
}

/// Reads a value that has to be a property list.
pub open spec fn spec_read_proplist(s: Seq<u8>) -> Parsed<PropSeq> {
    spec_tagged(s, TAG_PROPLIST, |b: Seq<u8>| spec_props_body(b, PropSeq::empty()))
}

/// Reads the body of a format info: the encoding as an unsigned 8 bit value, then a property
/// list. The encoding is checked after both were read.
pub open spec fn spec_format_info_body(s: Seq<u8>) -> Parsed<FormatInfoView> {
    match spec_read_u8(s) {
        Err(e) => Err(e),
        Ok((raw, n)) => match spec_read_proplist(s.skip(n)) {
            Err(e) => Err(e),
            Ok((props, n2)) => match FormatEncoding::spec_from_u8(raw) {
                None => Err(ErrorKind::InvalidEncoding(raw)),
                Some(encoding) => Ok((FormatInfoView { encoding, props }, n + n2)),
            },
        },
    }
}

/// Reads a value that has to be a format info.
pub open spec fn spec_read_format_info(s: Seq<u8>) -> Parsed<FormatInfoView> {
    spec_tagged(s, TAG_FORMAT_INFO, |b: Seq<u8>| spec_format_info_body(b))
}

/// Reads `count` format infos, one after the other.
pub open spec fn spec_read_formats(s: Seq<u8>, count: nat) -> Parsed<Seq<FormatInfoView>>
    decreases count,
{
    if count == 0 {
        Ok((Seq::empty(), 0))
    } else {
        match spec_read_format_info(s) {
            Err(e) => Err(e),
            Ok((first, n)) => match spec_read_formats(s.skip(n), (count - 1) as nat) {
                Err(e) => Err(e),
                Ok((others, m)) => Ok((seq![first] + others, n + m)),
            },
        }
    }
}

/// The bytes of format infos, one after the other.
pub open spec fn spec_encode_formats(formats: Seq<FormatInfoView>) -> Seq<u8>
    decreases formats.len(),
{
    if formats.len() == 0 {
        Seq::empty()
    } else {
        spec_encode_formats(formats.drop_last()) + spec_encode_value(
            ValueView::FormatInfo(formats.last()),
        )
    }
}

/// Reads the value at the start of `s`, which is not empty.
pub open spec fn spec_value(s: Seq<u8>) -> Parsed<ValueView> {
    let tag = s[0];
    if tag == TAG_STRING {
        parsed_map(spec_read_string_non_null(s), |v: Seq<u8>| ValueView::String(v))
    } else if tag == TAG_STRING_NULL {
        Ok((ValueView::NullString, 1))
    } else if tag == TAG_U32 {
        parsed_map(spec_read_u32(s), |v: u32| ValueView::U32(v))
    } else if tag == TAG_U8 {
        parsed_map(spec_read_u8(s), |v: u8| ValueView::U8(v))
    } else if tag == TAG_U64 {
        parsed_map(spec_read_u64(s), |v: u64| ValueView::U64(v))
    } else if tag == TAG_S64 {
        parsed_map(spec_read_i64(s), |v: i64| ValueView::S64(v))
    } else if tag == TAG_SAMPLE_SPEC {
        parsed_map(spec_read_sample_spec(s), |v: SampleSpecView| ValueView::SampleSpec(v))
    } else if tag == TAG_ARBITRARY {
        parsed_map(spec_read_arbitrary(s), |v: Seq<u8>| ValueView::Arbitrary(v))
    } else if tag == TAG_BOOLEAN_TRUE {
        Ok((ValueView::Boolean(true), 1))
    } else if tag == TAG_BOOLEAN_FALSE {
        Ok((ValueView::Boolean(false), 1))
    } else if tag == TAG_TIMEVAL {
        Err(ErrorKind::ReservedTag(tag))
    } else if tag == TAG_USEC {
        parsed_map(spec_read_usec(s), |v: u64| ValueView::Usec(v))
    } else if tag == TAG_CHANNEL_MAP {
        parsed_map(spec_read_channel_map(s),
            |v: Seq<ChannelPosition>| ValueView::ChannelMap(v),
        )
    } else if tag == TAG_CVOLUME {
        parsed_map(spec_read_cvolume(s), |v: Seq<u32>| ValueView::CVolume(v))
    } else if tag == TAG_PROPLIST {
        parsed_map(spec_read_proplist(s), |v: PropSeq| ValueView::PropList(v))
    } else if tag == TAG_VOLUME {
        parsed_map(spec_read_volume(s), |v: u32| ValueView::Volume(v))
    } else if tag == TAG_FORMAT_INFO {
        parsed_map(spec_read_format_info(s), |v: FormatInfoView| ValueView::FormatInfo(v))
    } else {
        Err(ErrorKind::InvalidTag(tag))
    }
}

/// Reads the next value, or nothing where the bytes are at their end.
pub open spec fn spec_read(s: Seq<u8>) -> Option<Parsed<ValueView>> {
    if s.len() == 0 {
        None
    } else {
        Some(spec_value(s))
    }
}

} // verus!
